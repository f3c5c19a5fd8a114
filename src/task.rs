use vstd::prelude::*;

use crate::action::converted;
use crate::message::Message;
use crate::messaging::MessagePort;

verus! {

/// Task execution context
///
/// Handed to every spawned task, so that it can submit messages and spawn
/// further tasks.
#[verifier::reject_recursive_types(Intent)]
#[verifier::reject_recursive_types(Effect)]
#[verifier::reject_recursive_types(Task)]
pub struct TaskContext<TaskExecutor, Intent, Effect, Task> {
    /// A task executor for spawning sub-tasks
    pub task_executor: TaskExecutor,
    /// A message port for submitting the side-effects of tasks
    pub message_port: MessagePort<Intent, Effect>,
    history: Ghost<Seq<Task>>,
}

impl<TaskExecutor, Intent, Effect, Task> TaskContext<TaskExecutor, Intent, Effect, Task> {
    /// Every task that was spawned through this context, in order
    pub closed spec fn spawned(&self) -> Seq<Task> {
        self.history@
    }

    /// Every message that was submitted through this context, in order
    pub closed spec fn submitted(&self) -> Seq<Message<Intent, Effect>> {
        self.message_port.submitted()
    }

    /// The executor of this context
    pub closed spec fn executor(&self) -> TaskExecutor {
        self.task_executor
    }

    /// The message port of this context
    pub closed spec fn port(&self) -> MessagePort<Intent, Effect> {
        self.message_port
    }

    /// Create a context from an executor and a port
    pub fn new(task_executor: TaskExecutor, message_port: MessagePort<Intent, Effect>) -> (r: Self)
        ensures
            r.spawned() == Seq::<Task>::empty(),
            r.submitted() == message_port.submitted(),
            r.executor() == task_executor,
            r.port() == message_port,
    {
        Self { task_executor, message_port, history: Ghost(Seq::empty()) }
    }

    /// Enqueue a message, or drop it when the channel is full or closed
    pub fn submit(&mut self, message: Message<Intent, Effect>)
        ensures
            final(self).submitted() == old(self).submitted().push(message),
            final(self).spawned() == old(self).spawned(),
            final(self).executor() == old(self).executor(),
    {
        self.message_port.submit(message);
    }

    /// See [`MessagePort::submit_message`]
    pub fn submit_message<M: Into<Message<Intent, Effect>>>(&mut self, message: M)
        ensures
            final(self).submitted().len() == old(self).submitted().len() + 1,
            final(self).submitted().drop_last() == old(self).submitted(),
            converted(message, final(self).submitted().last()),
            final(self).spawned() == old(self).spawned(),
            final(self).executor() == old(self).executor(),
    {
        self.message_port.submit_message(message);
    }

    /// See [`MessagePort::submit_intent`]
    pub fn submit_intent<I: Into<Intent>>(&mut self, intent: I)
        ensures
            final(self).submitted().len() == old(self).submitted().len() + 1,
            final(self).submitted().drop_last() == old(self).submitted(),
            final(self).submitted().last() matches Message::Intent(i) && converted(intent, i),
            final(self).spawned() == old(self).spawned(),
            final(self).executor() == old(self).executor(),
    {
        self.message_port.submit_intent(intent);
    }

    /// See [`MessagePort::submit_effect`]
    pub fn submit_effect<E: Into<Effect>>(&mut self, effect: E)
        ensures
            final(self).submitted().len() == old(self).submitted().len() + 1,
            final(self).submitted().drop_last() == old(self).submitted(),
            final(self).submitted().last() matches Message::Effect(e) && converted(effect, e),
            final(self).spawned() == old(self).spawned(),
            final(self).executor() == old(self).executor(),
    {
        self.message_port.submit_effect(effect);
    }
}

impl<T, Intent, Effect, Task> TaskContext<T, Intent, Effect, Task> where
    T: TaskExecutor<T, Intent = Intent, Effect = Effect, Task = Task> + Clone,
 {
    /// Hand a task to the executor, with a copy of this context
    pub fn dispatch(&mut self, task: Task)
        ensures
            spawned_by(old(self).executor(), task),
            final(self).spawned() == old(self).spawned().push(task),
            final(self).submitted() == old(self).submitted(),
            final(self).executor() == old(self).executor(),
            final(self).port() == old(self).port(),
    {
        let context = self.clone();
        let ghost handed = context;
        self.task_executor.spawn_task(context, task);
        assert(self.task_executor.spec_spawned(handed, task));
        let ghost spawned = self.history@;
        self.history = Ghost(spawned.push(task));
    }

    /// See [`TaskExecutor::spawn_task`]
    pub fn spawn_task<X: Into<Task>>(&mut self, task: X)
        ensures
            final(self).spawned().len() == old(self).spawned().len() + 1,
            final(self).spawned().drop_last() == old(self).spawned(),
            converted(task, final(self).spawned().last()),
            spawned_by(old(self).executor(), final(self).spawned().last()),
            final(self).submitted() == old(self).submitted(),
            final(self).executor() == old(self).executor(),
            final(self).port() == old(self).port(),
    {
        self.dispatch(task.into());
    }
}

impl<TaskExecutor: Clone, Intent, Effect, Task> Clone for TaskContext<TaskExecutor, Intent, Effect, Task> {
    /// A context for a clone of the executor and a port into the same
    /// channel, with nothing spawned or submitted through it yet
    fn clone(&self) -> (r: Self)
        ensures
            cloned(self.executor(), r.executor()),
            r.spawned() == Seq::<Task>::empty(),
            r.submitted() == Seq::<Message<Intent, Effect>>::empty(),
    {
        Self {
            task_executor: self.task_executor.clone(),
            message_port: self.message_port.clone(),
            history: Ghost(Seq::empty()),
        }
    }
}

/// `executor` was handed `task` to spawn, with a context for a clone of
/// `executor` that had nothing spawned or submitted through it yet
pub open spec fn spawned_by<T, Intent, Effect, Task>(executor: T, task: Task) -> bool where
    T: TaskExecutor<T, Intent = Intent, Effect = Effect, Task = Task> + Clone,
 {
    exists|context: TaskContext<T, Intent, Effect, Task>|
        {
            &&& cloned(executor, context.executor())
            &&& context.spawned() == Seq::<Task>::empty()
            &&& context.submitted() == Seq::<Message<Intent, Effect>>::empty()
            &&& #[trigger] executor.spec_spawned(context, task)
        }
}

/// Spawn concurrent tasks
pub trait TaskExecutor<T> {
    /// The intent type
    type Intent;

    /// The effect type
    type Effect;

    /// The task type
    type Task;

    /// Whether this executor may have spawned `task` with `context`
    spec fn spec_spawned(&self, context: TaskContext<T, Self::Intent, Self::Effect, Self::Task>, task: Self::Task) -> bool;

    /// Spawn a task
    ///
    /// The spawned task is executed concurrently, e.g. on some asynchronous
    /// executor. It can submit messages and spawn new tasks through
    /// `context`.
    fn spawn_task(&self, context: TaskContext<T, Self::Intent, Self::Effect, Self::Task>, task: Self::Task)
        ensures
            self.spec_spawned(context, task),
    ;

    /// Whether no task that was spawned is still outstanding
    fn all_tasks_finished(&self) -> bool;
}

impl<E> TaskExecutor<std::rc::Rc<E>> for std::rc::Rc<E> where E: TaskExecutor<std::rc::Rc<E>> {
    type Intent = E::Intent;

    type Effect = E::Effect;

    type Task = E::Task;

    open spec fn spec_spawned(&self, context: TaskContext<Self, Self::Intent, Self::Effect, Self::Task>, task: Self::Task) -> bool {
        (**self).spec_spawned(context, task)
    }

    fn spawn_task(&self, context: TaskContext<Self, Self::Intent, Self::Effect, Self::Task>, task: Self::Task) {
        E::spawn_task(&**self, context, task);
    }

    fn all_tasks_finished(&self) -> bool {
        E::all_tasks_finished(&**self)
    }
}

impl<E> TaskExecutor<std::sync::Arc<E>> for std::sync::Arc<E> where E: TaskExecutor<std::sync::Arc<E>> {
    type Intent = E::Intent;

    type Effect = E::Effect;

    type Task = E::Task;

    open spec fn spec_spawned(&self, context: TaskContext<Self, Self::Intent, Self::Effect, Self::Task>, task: Self::Task) -> bool {
        (**self).spec_spawned(context, task)
    }

    fn spawn_task(&self, context: TaskContext<Self, Self::Intent, Self::Effect, Self::Task>, task: Self::Task) {
        E::spawn_task(&**self, context, task);
    }

    fn all_tasks_finished(&self) -> bool {
        E::all_tasks_finished(&**self)
    }
}

} // verus!
