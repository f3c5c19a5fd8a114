use vstd::prelude::*;

use crate::effect::EffectApplied;
use crate::intent::IntentHandled;
use crate::message::Message;
use crate::messaging::{try_recv, Dequeued, MessageReceiver};
use crate::model::{EffectAppliedOf, Model, ModelRender, ModelRenderHint};
use crate::task::{spawned_by, TaskContext, TaskExecutor};

verus! {

/// Follow a chain of next effects from `model`, applying at most `fuel`
/// effects: the final state and the outcome of each applied effect, or
/// `None` when the chain is longer than `fuel`.
pub open spec fn follow_chain<M: Model>(model: M, next: Option<M::Effect>, fuel: nat) -> Option<
    (M, Seq<EffectAppliedOf<M>>),
>
    decreases fuel,
{
    match next {
        None => Some((model, Seq::empty())),
        Some(effect) => if fuel == 0 {
            None
        } else {
            let applied = model.spec_apply_effect(effect);
            match follow_chain(model.spec_after_effect(effect), applied.next_effect, (fuel - 1) as nat) {
                None => None,
                Some((last, rest)) => Some((last, seq![applied] + rest)),
            }
        },
    }
}

/// Process `message` from `model` with at most `fuel` follow-up effects:
/// the final state and the outcome of each step of the chain. A rejected
/// intent leaves the state as it is and has no step.
pub open spec fn run_message<M: Model>(model: M, message: Message<M::Intent, M::Effect>, fuel: nat) -> Option<
    (M, Seq<EffectAppliedOf<M>>),
> {
    match message {
        Message::Effect(effect) => follow_chain(model, Some(effect), fuel),
        Message::Intent(intent) => match model.spec_handle_intent(intent) {
            IntentHandled::Rejected(_) => Some((model, Seq::empty())),
            IntentHandled::Accepted(applied) => match follow_chain(
                model.spec_after_intent(intent),
                applied.next_effect,
                fuel,
            ) {
                None => None,
                Some((last, rest)) => Some((last, seq![applied] + rest)),
            },
        },
    }
}

/// Whether the chain of next effects that `message` starts is finite
pub open spec fn chain_ends<M: Model>(model: M, message: Message<M::Intent, M::Effect>) -> bool {
    exists|fuel: nat| (#[trigger] run_message(model, message, fuel)) is Some
}

/// Enough fuel for the chain of next effects that `message` starts
pub open spec fn chain_fuel<M: Model>(model: M, message: Message<M::Intent, M::Effect>) -> nat {
    choose|fuel: nat| (#[trigger] run_message(model, message, fuel)) is Some
}

/// The state of the model after processing `message`
pub open spec fn processed_model<M: Model>(model: M, message: Message<M::Intent, M::Effect>) -> M {
    run_message(model, message, chain_fuel(model, message)).unwrap().0
}

/// The outcomes of the steps of processing `message`, in order
pub open spec fn applied_chain<M: Model>(model: M, message: Message<M::Intent, M::Effect>) -> Seq<
    EffectAppliedOf<M>,
> {
    run_message(model, message, chain_fuel(model, message)).unwrap().1
}

/// The reason why `model` rejects `message`, if it does
pub open spec fn rejection<M: Model>(model: M, message: Message<M::Intent, M::Effect>) -> Option<
    M::IntentRejected,
> {
    match message {
        Message::Intent(intent) => match model.spec_handle_intent(intent) {
            IntentHandled::Rejected(reason) => Some(reason),
            IntentHandled::Accepted(_) => None,
        },
        Message::Effect(_) => None,
    }
}

/// The tasks of a chain of outcomes, in order
pub open spec fn chain_tasks<E, T, H>(chain: Seq<EffectApplied<E, T, H>>) -> Seq<T>
    decreases chain.len(),
{
    if chain.len() == 0 {
        Seq::empty()
    } else {
        let tasks = chain_tasks(chain.drop_last());
        match chain.last().task {
            Some(task) => tasks.push(task),
            None => tasks,
        }
    }
}

/// The render hints of a chain of outcomes, in order
pub open spec fn chain_hints<E, T, H>(chain: Seq<EffectApplied<E, T, H>>) -> Seq<H> {
    chain.map_values(|applied: EffectApplied<E, T, H>| applied.render_hint)
}

/// The combination of `hints` in order, starting from the neutral hint
pub open spec fn accumulated_hint<H: ModelRenderHint>(hints: Seq<H>) -> H
    decreases hints.len(),
{
    if hints.len() == 0 {
        H::spec_neutral()
    } else {
        accumulated_hint(hints.drop_last()).spec_add(hints.last())
    }
}

/// Outcome of processing a single message
#[derive(Debug, Clone)]
pub enum MessageProcessed<IntentRejected> {
    /// A message with an intent has been rejected
    IntentRejected(IntentRejected),
    /// A task has been spawned or a message has been submitted, so new
    /// messages are expected to arrive in the channel
    Progressing,
    /// Not [`Self::Progressing`]
    NoProgress,
}

proof fn lemma_chain_take_step<E, T, H>(chain: Seq<EffectApplied<E, T, H>>, k: int)
    requires
        0 <= k < chain.len(),
    ensures
        chain_tasks(chain.take(k + 1)) == match chain[k].task {
            Some(task) => chain_tasks(chain.take(k)).push(task),
            None => chain_tasks(chain.take(k)),
        },
        chain_hints(chain.take(k + 1)) == chain_hints(chain.take(k)).push(chain[k].render_hint),
{
    assert(chain.take(k + 1).drop_last() =~= chain.take(k));
    assert(chain_hints(chain.take(k + 1)) =~= chain_hints(chain.take(k)).push(chain[k].render_hint));
}

proof fn lemma_accumulated_hint_push<H: ModelRenderHint>(hints: Seq<H>, hint: H)
    ensures
        accumulated_hint(hints.push(hint)) == accumulated_hint(hints).spec_add(hint),
{
    assert(hints.push(hint).drop_last() =~= hints);
}

/// Process a single message
///
/// An intent is handled by the model; an effect is applied to it. Then the
/// chain of next effects is applied, each one before any queued message.
/// Each task of the chain is spawned as it comes. Once the chain has ended,
/// the render hints of the chain are combined; if the combination asks for
/// it, the model is rendered with it, and an intent that rendering observed
/// is submitted to the channel, not processed here.
/// A rejected intent stops processing at once: nothing is applied, spawned,
/// rendered or submitted.
pub fn process_message<M, R, T>(
    task_context: &mut TaskContext<T, M::Intent, M::Effect, M::Task>,
    model: &mut M,
    render_model: &mut R,
    message: Message<M::Intent, M::Effect>,
) -> (r: MessageProcessed<M::IntentRejected>) where
    M: Model,
    R: ModelRender<Model = M>,
    T: TaskExecutor<T, Intent = M::Intent, Effect = M::Effect, Task = M::Task> + Clone,

    requires
        chain_ends(*old(model), message),
    ensures
        match rejection(*old(model), message) {
            Some(reason) => {
                &&& r == MessageProcessed::<M::IntentRejected>::IntentRejected(reason)
                &&& *final(model) == *old(model)
                &&& final(task_context).spawned() == old(task_context).spawned()
                &&& final(task_context).submitted() == old(task_context).submitted()
                &&& final(task_context).executor() == old(task_context).executor()
                &&& *final(render_model) == *old(render_model)
            },
            None => {
                let chain = applied_chain(*old(model), message);
                let hint = accumulated_hint(chain_hints(chain));
                let submitted = final(task_context).submitted().len() > old(
                    task_context,
                ).submitted().len();
                &&& *final(model) == processed_model(*old(model), message)
                &&& final(task_context).spawned() == old(task_context).spawned() + chain_tasks(
                    chain,
                )
                &&& forall|i: int|
                    0 <= i < chain_tasks(chain).len() ==> spawned_by(
                        old(task_context).executor(),
                        #[trigger] chain_tasks(chain)[i],
                    )
                &&& final(task_context).executor() == old(task_context).executor()
                &&& if hint.spec_should_render() {
                    exists|observed: Option<M::Intent>|
                        {
                            &&& #[trigger] R::spec_render(
                                *old(render_model),
                                *final(model),
                                hint,
                                *final(render_model),
                                observed,
                            )
                            &&& final(task_context).submitted() == match observed {
                                Some(intent) => old(task_context).submitted().push(
                                    Message::Intent(intent),
                                ),
                                None => old(task_context).submitted(),
                            }
                        }
                } else {
                    &&& *final(render_model) == *old(render_model)
                    &&& final(task_context).submitted() == old(task_context).submitted()
                }
                &&& r == if chain_tasks(chain).len() > 0 || submitted {
                    MessageProcessed::<M::IntentRejected>::Progressing
                } else {
                    MessageProcessed::<M::IntentRejected>::NoProgress
                }
            },
        },
{
    let ghost model0 = *model;
    let ghost spawned0 = task_context.spawned();
    let ghost submitted0 = task_context.submitted();
    let ghost executor0 = task_context.executor();
    let ghost fuel = chain_fuel(model0, message);
    let ghost chain = applied_chain(model0, message);
    let ghost last = processed_model(model0, message);
    let ghost mut rest_fuel: nat = fuel;
    let mut current = match message {
        Message::Intent(intent) => match model.handle_intent(intent) {
            IntentHandled::Accepted(applied) => applied,
            IntentHandled::Rejected(reason) => {
                return MessageProcessed::IntentRejected(reason);
            },
        },
        Message::Effect(effect) => {
            proof {
                rest_fuel = (fuel - 1) as nat;
            }
            model.apply_effect(effect)
        },
    };
    proof {
        assert(run_message(model0, message, fuel) is Some);
        assert(chain.skip(1) =~= chain.drop_first());
        assert(chain.take(0) =~= Seq::<EffectAppliedOf<M>>::empty());
        assert(chain_hints(chain.take(0)) =~= Seq::<M::RenderHint>::empty());
        assert(spawned0 + chain_tasks(chain.take(0)) =~= spawned0);
    }
    let mut hint = M::RenderHint::neutral();
    let mut progressing = false;
    let ghost mut k: int = 0;
    loop
        invariant_except_break
            k < chain.len(),
            chain[k] == current,
            follow_chain(*model, current.next_effect, rest_fuel) == Some((last, chain.skip(k + 1))),
        invariant
            0 <= k <= chain.len(),
            hint == accumulated_hint(chain_hints(chain.take(k))),
            task_context.spawned() == spawned0 + chain_tasks(chain.take(k)),
            task_context.submitted() == submitted0,
            task_context.executor() == executor0,
            forall|i: int|
                0 <= i < chain_tasks(chain.take(k)).len() ==> spawned_by(
                    executor0,
                    #[trigger] chain_tasks(chain.take(k))[i],
                ),
            progressing == (chain_tasks(chain.take(k)).len() > 0),
            *render_model == *old(render_model),
        ensures
            k == chain.len(),
            *model == last,
            hint == accumulated_hint(chain_hints(chain)),
            task_context.spawned() == spawned0 + chain_tasks(chain),
            task_context.submitted() == submitted0,
            task_context.executor() == executor0,
            forall|i: int|
                0 <= i < chain_tasks(chain).len() ==> spawned_by(
                    executor0,
                    #[trigger] chain_tasks(chain)[i],
                ),
            progressing == (chain_tasks(chain).len() > 0),
            *render_model == *old(render_model),
        decreases chain.len() - k,
    {
        proof {
            lemma_chain_take_step(chain, k);
            lemma_accumulated_hint_push(chain_hints(chain.take(k)), current.render_hint);
        }
        let ghost prev = current;
        let EffectApplied { render_hint, task, next_effect } = current;
        hint = hint.add_hint(render_hint);
        match task {
            Some(task) => {
                task_context.dispatch(task);
                progressing = true;
                proof {
                    assert(spawned0 + chain_tasks(chain.take(k)).push(task) =~= (spawned0
                        + chain_tasks(chain.take(k))).push(task));
                    let tasks = chain_tasks(chain.take(k));
                    assert forall|i: int| 0 <= i < tasks.push(task).len() implies spawned_by(
                        executor0,
                        #[trigger] tasks.push(task)[i],
                    ) by {
                        if i < tasks.len() {
                            assert(tasks.push(task)[i] == tasks[i]);
                        }
                    }
                }
            },
            None => {},
        }
        match next_effect {
            None => {
                proof {
                    assert(chain.skip(k + 1) =~= Seq::<EffectAppliedOf<M>>::empty());
                    assert(chain.take(k + 1) =~= chain);
                    k = k + 1;
                }
                break ;
            },
            Some(effect) => {
                let ghost before = *model;
                current = model.apply_effect(effect);
                proof {
                    assert(follow_chain(before, prev.next_effect, rest_fuel) == Some(
                        (last, chain.skip(k + 1)),
                    ));
                    let r = follow_chain(*model, current.next_effect, (rest_fuel - 1) as nat);
                    assert(r is Some);
                    let rest = r.unwrap().1;
                    assert(chain.skip(k + 1) == seq![current] + rest);
                    assert(chain.skip(k + 1).len() == rest.len() + 1);
                    assert(k + 1 < chain.len());
                    assert(chain.skip(k + 1)[0] == chain[k + 1]);
                    assert forall|i: int| 0 <= i < rest.len() implies chain.skip(k + 2)[i] == rest[i] by {
                        assert(chain.skip(k + 1)[i + 1] == rest[i]);
                    }
                    assert(chain.skip(k + 2) =~= rest);
                    rest_fuel = (rest_fuel - 1) as nat;
                    k = k + 1;
                }
            },
        }
    }
    if hint.should_render_model() {
        let ghost hint_used = hint;
        let observed = render_model.render_model(model, hint);
        let ghost observed_ghost = observed;
        match observed {
            Some(observed_intent) => {
                task_context.submit(Message::Intent(observed_intent));
                progressing = true;
            },
            None => {},
        }
        assert(R::spec_render(*old(render_model), *model, hint_used, *render_model, observed_ghost));
    }
    if progressing {
        MessageProcessed::Progressing
    } else {
        MessageProcessed::NoProgress
    }
}

/// Outcome of consuming multiple messages
///
/// The condition that stopped consuming messages.
#[derive(Debug, Clone)]
pub enum MessagesConsumed<IntentRejected> {
    /// The last message with an intent has been rejected
    IntentRejected(IntentRejected),
    /// The message channel is closed
    ChannelClosed,
    /// The last message made no progress, the channel is empty and every
    /// spawned task has finished
    NoProgress,
}

/// What the consume loop does next
#[derive(Debug, Clone)]
pub enum ConsumeStep<Intent, Effect, IntentRejected> {
    /// Process this message
    Process(Message<Intent, Effect>),
    /// Wait until a message arrives or the channel closes
    AwaitMessage,
    /// Stop consuming messages
    Stop(MessagesConsumed<IntentRejected>),
}

/// The next step after waiting for a message: `None` means that the
/// channel has closed.
pub fn step_after_await<Intent, Effect, IntentRejected>(next: Option<Message<Intent, Effect>>) -> (r:
    ConsumeStep<Intent, Effect, IntentRejected>)
    ensures
        match next {
            Some(message) => r == ConsumeStep::<Intent, Effect, IntentRejected>::Process(message),
            None => r == ConsumeStep::<Intent, Effect, IntentRejected>::Stop(
                MessagesConsumed::ChannelClosed,
            ),
        },
{
    match next {
        Some(message) => ConsumeStep::Process(message),
        None => ConsumeStep::Stop(MessagesConsumed::ChannelClosed),
    }
}

/// The next step after a message made no progress and the channel was
/// polled without waiting; `all_tasks_finished` matters only when the
/// channel is empty.
pub fn step_after_poll<Intent, Effect, IntentRejected>(
    polled: Dequeued<Message<Intent, Effect>>,
    all_tasks_finished: bool,
) -> (r: ConsumeStep<Intent, Effect, IntentRejected>)
    ensures
        match polled {
            Dequeued::Message(message) => r == ConsumeStep::<Intent, Effect, IntentRejected>::Process(
                message,
            ),
            Dequeued::Closed => r == ConsumeStep::<Intent, Effect, IntentRejected>::Stop(
                MessagesConsumed::ChannelClosed,
            ),
            Dequeued::Empty => if all_tasks_finished {
                r == ConsumeStep::<Intent, Effect, IntentRejected>::Stop(MessagesConsumed::NoProgress)
            } else {
                r == ConsumeStep::<Intent, Effect, IntentRejected>::AwaitMessage
            },
        },
{
    match polled {
        Dequeued::Message(message) => ConsumeStep::Process(message),
        Dequeued::Closed => ConsumeStep::Stop(MessagesConsumed::ChannelClosed),
        Dequeued::Empty => if all_tasks_finished {
            ConsumeStep::Stop(MessagesConsumed::NoProgress)
        } else {
            ConsumeStep::AwaitMessage
        },
    }
}

/// The next step after processing a message
///
/// A rejected intent stops the loop. After progress the loop waits for the
/// next message. Otherwise the channel is polled without waiting: a queued
/// message is processed next, a closed channel stops the loop, and an empty
/// one stops it only if every spawned task has finished; else the loop
/// waits, since an outstanding task is expected to submit a message.
pub fn step_after_processed<T, Intent, Effect, IntentRejected>(
    message_rx: &mut MessageReceiver<Intent, Effect>,
    task_executor: &T,
    processed: MessageProcessed<IntentRejected>,
) -> (r: ConsumeStep<Intent, Effect, IntentRejected>) where T: TaskExecutor<T, Intent = Intent, Effect = Effect>
    ensures
        match processed {
            MessageProcessed::IntentRejected(reason) => r == ConsumeStep::<
                Intent,
                Effect,
                IntentRejected,
            >::Stop(MessagesConsumed::IntentRejected(reason)),
            MessageProcessed::Progressing => r is AwaitMessage,
            MessageProcessed::NoProgress => {
                ||| r is Process
                ||| r is AwaitMessage
                ||| r == ConsumeStep::<Intent, Effect, IntentRejected>::Stop(
                    MessagesConsumed::ChannelClosed,
                )
                ||| r == ConsumeStep::<Intent, Effect, IntentRejected>::Stop(
                    MessagesConsumed::NoProgress,
                )
            },
        },
{
    match processed {
        MessageProcessed::IntentRejected(reason) => ConsumeStep::Stop(
            MessagesConsumed::IntentRejected(reason),
        ),
        MessageProcessed::Progressing => ConsumeStep::AwaitMessage,
        MessageProcessed::NoProgress => {
            let polled = try_recv(message_rx);
            let all_tasks_finished = match polled {
                Dequeued::Empty => task_executor.all_tasks_finished(),
                _ => false,
            };
            step_after_poll(polled, all_tasks_finished)
        },
    }
}

} // verus!
