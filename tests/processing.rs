use std::cell::RefCell;
use std::rc::Rc;
use std::sync::{Arc, Mutex};

use infect::{
    message_channel, process_message, step_after_await, step_after_poll, step_after_processed,
    ConsumeStep, Dequeued, EffectApplied, IntentHandled, Message, MessagePort, MessageProcessed,
    MessageReceiver, MessagesConsumed, Model, ModelChanged, ModelRender, TaskContext,
    TaskExecutor,
};

#[derive(Debug, Clone, PartialEq)]
enum Intent {
    Increment(i64),
    Forbidden,
}

#[derive(Debug, Clone, PartialEq)]
enum Effect {
    Add(i64),
    AddWithFollowUp(i64),
    FollowUp,
    Countdown(u32),
    QuietThenAdd(i64),
    Spawn(u32),
}

type Applied = EffectApplied<Effect, u32, ModelChanged>;

#[derive(Debug, Clone, Default)]
struct Counter {
    value: i64,
    apply_calls: usize,
}

impl Model for Counter {
    type Intent = Intent;
    type IntentRejected = &'static str;
    type Effect = Effect;
    type Task = u32;
    type RenderHint = ModelChanged;

    fn spec_handle_intent(&self, intent: Intent) -> IntentHandled<&'static str, Effect, u32, ModelChanged> {
        self.clone().handle_intent(intent)
    }

    fn spec_after_intent(&self, intent: Intent) -> Self {
        let mut after = self.clone();
        let _ = after.handle_intent(intent);
        after
    }

    fn spec_apply_effect(&self, effect: Effect) -> Applied {
        self.clone().apply_effect(effect)
    }

    fn spec_after_effect(&self, effect: Effect) -> Self {
        let mut after = self.clone();
        let _ = after.apply_effect(effect);
        after
    }

    fn handle_intent(
        &mut self,
        intent: Intent,
    ) -> IntentHandled<&'static str, Effect, u32, ModelChanged> {
        match intent {
            Intent::Forbidden => IntentHandled::Rejected("forbidden"),
            Intent::Increment(n) => {
                self.value += n;
                IntentHandled::Accepted(Applied {
                    render_hint: ModelChanged::MaybeChanged,
                    task: Some(n as u32),
                    next_effect: None,
                })
            }
        }
    }

    fn apply_effect(&mut self, effect: Effect) -> Applied {
        self.apply_calls += 1;
        match effect {
            Effect::Add(n) => {
                self.value += n;
                Applied::maybe_changed()
            }
            Effect::AddWithFollowUp(n) => {
                self.value += n;
                Applied::unchanged_next::<_, Effect>(Some(Effect::FollowUp))
            }
            Effect::FollowUp => Applied::unchanged(),
            Effect::Countdown(k) => {
                self.value += 1;
                if k > 1 {
                    Applied::unchanged_next::<_, Effect>(Some(Effect::Countdown(k - 1)))
                } else {
                    Applied::unchanged()
                }
            }
            Effect::QuietThenAdd(n) => Applied::unchanged_next::<_, Effect>(Some(Effect::Add(n))),
            Effect::Spawn(task) => Applied::unchanged_task::<_, u32>(Some(task)),
        }
    }
}

#[derive(Debug, Default)]
struct Renderer {
    rendered: Vec<(i64, ModelChanged)>,
    reply: Option<Intent>,
}

impl ModelRender for Renderer {
    type Model = Counter;

    fn spec_render(
        before: Self,
        model: Counter,
        hint: ModelChanged,
        after: Self,
        observed: Option<Intent>,
    ) -> bool {
        let mut expected = before.rendered;
        expected.push((model.value, hint));
        after.rendered == expected && after.reply.is_none() && observed == before.reply
    }

    fn render_model(&mut self, model: &Counter, hint: ModelChanged) -> Option<Intent> {
        self.rendered.push((model.value, hint));
        self.reply.take()
    }
}

#[derive(Debug, Clone, Default)]
struct Executor {
    spawned: Rc<RefCell<Vec<u32>>>,
    finished: bool,
}

impl TaskExecutor<Executor> for Executor {
    type Intent = Intent;
    type Effect = Effect;
    type Task = u32;

    fn spec_spawned(&self, _context: TaskContext<Executor, Intent, Effect, u32>, task: u32) -> bool {
        self.spawned.borrow().contains(&task)
    }

    fn spawn_task(&self, _context: TaskContext<Executor, Intent, Effect, u32>, task: u32) {
        self.spawned.borrow_mut().push(task);
    }

    fn all_tasks_finished(&self) -> bool {
        self.finished
    }
}

struct Fixture {
    executor: Executor,
    context: TaskContext<Executor, Intent, Effect, u32>,
    receiver: MessageReceiver<Intent, Effect>,
    model: Counter,
    renderer: Renderer,
}

fn fixture(finished: bool) -> Fixture {
    let executor = Executor { spawned: Rc::default(), finished };
    let (sender, receiver) = message_channel(8);
    let context = TaskContext::new(executor.clone(), MessagePort::new(sender));
    Fixture { executor, context, receiver, model: Counter::default(), renderer: Renderer::default() }
}

impl Fixture {
    fn process(&mut self, message: Message<Intent, Effect>) -> MessageProcessed<&'static str> {
        process_message(&mut self.context, &mut self.model, &mut self.renderer, message)
    }

    fn spawned(&self) -> Vec<u32> {
        self.executor.spawned.borrow().clone()
    }
}

#[test]
fn follow_up_effect_is_applied_before_control_returns() {
    let mut f = fixture(true);
    let outcome = f.process(Message::Effect(Effect::AddWithFollowUp(2)));
    assert_eq!(f.model.apply_calls, 2);
    assert_eq!(f.model.value, 2);
    assert!(matches!(outcome, MessageProcessed::NoProgress));
    assert!(f.renderer.rendered.is_empty());
}

#[test]
fn rejected_intent_is_inert() {
    let mut f = fixture(true);
    let outcome = f.process(Message::Intent(Intent::Forbidden));
    assert!(matches!(outcome, MessageProcessed::IntentRejected("forbidden")));
    assert_eq!(f.model.apply_calls, 0);
    assert_eq!(f.model.value, 0);
    assert!(f.spawned().is_empty());
    assert!(f.renderer.rendered.is_empty());
    assert!(f.receiver.try_recv().is_err());
}

#[test]
fn rejection_is_idempotent() {
    let mut f = fixture(true);
    let first = f.process(Message::Intent(Intent::Forbidden));
    let second = f.process(Message::Intent(Intent::Forbidden));
    assert!(matches!(first, MessageProcessed::IntentRejected("forbidden")));
    assert!(matches!(second, MessageProcessed::IntentRejected("forbidden")));
    assert_eq!(f.model.value, 0);
    assert_eq!(f.model.apply_calls, 0);
}

#[test]
fn silent_chain_makes_no_progress_but_mutates() {
    let mut f = fixture(true);
    let outcome = f.process(Message::Effect(Effect::Countdown(5)));
    assert!(matches!(outcome, MessageProcessed::NoProgress));
    assert_eq!(f.model.apply_calls, 5);
    assert_eq!(f.model.value, 5);
    assert!(f.spawned().is_empty());
    assert!(f.renderer.rendered.is_empty());
}

#[test]
fn accepted_intent_spawns_the_task_of_the_model() {
    let mut f = fixture(true);
    let outcome = f.process(Message::Intent(Intent::Increment(3)));
    assert!(matches!(outcome, MessageProcessed::Progressing));
    assert_eq!(f.spawned(), vec![3]);
    assert_eq!(f.model.value, 3);
    assert_eq!(f.model.apply_calls, 0);
    assert_eq!(f.renderer.rendered, vec![(3, ModelChanged::MaybeChanged)]);
}

#[test]
fn effect_task_is_spawned_without_rendering() {
    let mut f = fixture(true);
    let outcome = f.process(Message::Effect(Effect::Spawn(7)));
    assert!(matches!(outcome, MessageProcessed::Progressing));
    assert_eq!(f.spawned(), vec![7]);
    assert!(f.renderer.rendered.is_empty());
}

#[test]
fn chain_hints_accumulate_into_one_render() {
    let mut f = fixture(true);
    let outcome = f.process(Message::Effect(Effect::QuietThenAdd(4)));
    assert_eq!(f.model.apply_calls, 2);
    assert_eq!(f.renderer.rendered, vec![(4, ModelChanged::MaybeChanged)]);
    assert!(matches!(outcome, MessageProcessed::NoProgress));
}

#[test]
fn observed_intent_is_enqueued_not_processed() {
    let mut f = fixture(true);
    f.renderer.reply = Some(Intent::Increment(1));
    let outcome = f.process(Message::Effect(Effect::Add(10)));
    assert!(matches!(outcome, MessageProcessed::Progressing));
    assert_eq!(f.model.value, 10);
    assert_eq!(f.receiver.try_recv().ok(), Some(Message::Intent(Intent::Increment(1))));
}

#[test]
fn await_outcome_decides_next_step() {
    let next: ConsumeStep<Intent, Effect, &'static str> =
        step_after_await(Some(Message::Effect(Effect::FollowUp)));
    assert!(matches!(next, ConsumeStep::Process(Message::Effect(Effect::FollowUp))));
    let next: ConsumeStep<Intent, Effect, &'static str> = step_after_await(None);
    assert!(matches!(next, ConsumeStep::Stop(MessagesConsumed::ChannelClosed)));
}

#[test]
fn poll_outcome_decides_next_step() {
    let next: ConsumeStep<Intent, Effect, &'static str> =
        step_after_poll(Dequeued::Message(Message::Intent(Intent::Forbidden)), true);
    assert!(matches!(next, ConsumeStep::Process(Message::Intent(Intent::Forbidden))));
    let next: ConsumeStep<Intent, Effect, &'static str> = step_after_poll(Dequeued::Closed, false);
    assert!(matches!(next, ConsumeStep::Stop(MessagesConsumed::ChannelClosed)));
    let next: ConsumeStep<Intent, Effect, &'static str> = step_after_poll(Dequeued::Empty, true);
    assert!(matches!(next, ConsumeStep::Stop(MessagesConsumed::NoProgress)));
    let next: ConsumeStep<Intent, Effect, &'static str> = step_after_poll(Dequeued::Empty, false);
    assert!(matches!(next, ConsumeStep::AwaitMessage));
}

#[test]
fn rejection_and_progress_decide_next_step() {
    let mut f = fixture(true);
    let next = step_after_processed(
        &mut f.receiver,
        &f.executor,
        MessageProcessed::IntentRejected("no"),
    );
    assert!(matches!(next, ConsumeStep::Stop(MessagesConsumed::IntentRejected("no"))));
    let next = step_after_processed(&mut f.receiver, &f.executor, MessageProcessed::<&'static str>::Progressing);
    assert!(matches!(next, ConsumeStep::AwaitMessage));
}

#[test]
fn no_progress_takes_a_queued_message() {
    let mut f = fixture(true);
    f.context.submit_effect(Effect::Add(1));
    let next = step_after_processed(&mut f.receiver, &f.executor, MessageProcessed::<&'static str>::NoProgress);
    assert!(matches!(next, ConsumeStep::Process(Message::Effect(Effect::Add(1)))));
}

#[test]
fn no_progress_on_idle_channel_stops_when_tasks_finished() {
    let mut f = fixture(true);
    let next = step_after_processed(&mut f.receiver, &f.executor, MessageProcessed::<&'static str>::NoProgress);
    assert!(matches!(next, ConsumeStep::Stop(MessagesConsumed::NoProgress)));
}

#[test]
fn unfinished_tasks_keep_the_loop_waiting() {
    let mut f = fixture(false);
    let next = step_after_processed(&mut f.receiver, &f.executor, MessageProcessed::<&'static str>::NoProgress);
    assert!(matches!(next, ConsumeStep::AwaitMessage));
}

#[test]
fn no_progress_on_closed_channel_stops() {
    let executor = Executor { spawned: Rc::default(), finished: false };
    let (sender, mut receiver) = message_channel::<Intent, Effect>(1);
    drop(sender);
    let next: ConsumeStep<Intent, Effect, &'static str> =
        step_after_processed(&mut receiver, &executor, MessageProcessed::NoProgress);
    assert!(matches!(next, ConsumeStep::Stop(MessagesConsumed::ChannelClosed)));
}

#[test]
fn context_submits_and_spawns() {
    let mut f = fixture(true);
    f.context.submit_intent(Intent::Increment(2));
    f.context.submit_message(Message::Effect(Effect::FollowUp));
    f.context.spawn_task(9u8);
    assert_eq!(f.receiver.try_recv().ok(), Some(Message::Intent(Intent::Increment(2))));
    assert_eq!(f.receiver.try_recv().ok(), Some(Message::Effect(Effect::FollowUp)));
    assert_eq!(f.spawned(), vec![9]);
}

#[derive(Debug, Default)]
struct SharedExecutor {
    spawned: RefCell<Vec<u32>>,
}

impl TaskExecutor<Rc<SharedExecutor>> for SharedExecutor {
    type Intent = Intent;
    type Effect = Effect;
    type Task = u32;

    fn spec_spawned(
        &self,
        _context: TaskContext<Rc<SharedExecutor>, Intent, Effect, u32>,
        task: u32,
    ) -> bool {
        self.spawned.borrow().contains(&task)
    }

    fn spawn_task(&self, _context: TaskContext<Rc<SharedExecutor>, Intent, Effect, u32>, task: u32) {
        self.spawned.borrow_mut().push(task);
    }

    fn all_tasks_finished(&self) -> bool {
        self.spawned.borrow().is_empty()
    }
}

#[derive(Debug, Default)]
struct SyncExecutor {
    spawned: Mutex<Vec<u32>>,
}

impl TaskExecutor<Arc<SyncExecutor>> for SyncExecutor {
    type Intent = Intent;
    type Effect = Effect;
    type Task = u32;

    fn spec_spawned(
        &self,
        _context: TaskContext<Arc<SyncExecutor>, Intent, Effect, u32>,
        task: u32,
    ) -> bool {
        self.spawned.lock().unwrap().contains(&task)
    }

    fn spawn_task(&self, _context: TaskContext<Arc<SyncExecutor>, Intent, Effect, u32>, task: u32) {
        self.spawned.lock().unwrap().push(task);
    }

    fn all_tasks_finished(&self) -> bool {
        self.spawned.lock().unwrap().is_empty()
    }
}

#[test]
fn shared_executors_forward_to_the_inner_executor() {
    let shared = Rc::new(SharedExecutor::default());
    let (sender, _receiver) = message_channel::<Intent, Effect>(2);
    let mut context = TaskContext::new(Rc::clone(&shared), MessagePort::new(sender));
    assert!(TaskExecutor::all_tasks_finished(&context.task_executor));
    context.spawn_task(4u32);
    assert_eq!(*shared.spawned.borrow(), vec![4]);
    assert!(!TaskExecutor::all_tasks_finished(&context.task_executor));

    let sync = Arc::new(SyncExecutor::default());
    let (sender, _receiver) = message_channel::<Intent, Effect>(2);
    let mut context = TaskContext::new(Arc::clone(&sync), MessagePort::new(sender));
    context.spawn_task(6u32);
    assert_eq!(*sync.spawned.lock().unwrap(), vec![6]);
    assert!(!TaskExecutor::all_tasks_finished(&context.task_executor));
}
