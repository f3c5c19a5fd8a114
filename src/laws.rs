//! Laws of render hints and of message processing, stated over the spec
//! functions that the contracts of the library speak of.

use vstd::prelude::*;

use crate::effect::EffectApplied;
use crate::intent::IntentHandled;
use crate::message::Message;
use crate::model::{Model, ModelRenderHint};
use crate::processing::{
    accumulated_hint, applied_chain, chain_ends, chain_hints, chain_tasks, follow_chain,
    processed_model, rejection, run_message,
};

verus! {

/// Accumulating render hints splits over concatenation: the hint of
/// `a + b` is the hint of `a` combined with the hint of `b`.
pub proof fn lemma_accumulated_hint_concat<H: ModelRenderHint>(a: Seq<H>, b: Seq<H>)
    ensures
        accumulated_hint(a + b) == accumulated_hint(a).spec_add(accumulated_hint(b)),
    decreases b.len(),
{
    let x = accumulated_hint(a);
    if b.len() == 0 {
        assert(a + b =~= a);
        H::lemma_render_hint_laws(x, H::spec_neutral(), x);
    } else {
        let init = b.drop_last();
        assert((a + b).drop_last() =~= a + init);
        assert((a + b).last() == b.last());
        lemma_accumulated_hint_concat(a, init);
        H::lemma_render_hint_laws(x, accumulated_hint(init), b.last());
    }
}

/// The accumulated render hint does not depend on the order in which two
/// runs of hints come.
pub proof fn lemma_accumulated_hint_commutes<H: ModelRenderHint>(a: Seq<H>, b: Seq<H>)
    ensures
        accumulated_hint(a + b) == accumulated_hint(b + a),
{
    lemma_accumulated_hint_concat(a, b);
    lemma_accumulated_hint_concat(b, a);
    H::lemma_render_hint_laws(accumulated_hint(a), accumulated_hint(b), accumulated_hint(a));
}

/// A single hint accumulates to itself.
pub proof fn lemma_accumulated_hint_single<H: ModelRenderHint>(hint: H)
    ensures
        accumulated_hint(seq![hint]) == hint,
{
    assert(seq![hint].drop_last() =~= Seq::<H>::empty());
    assert(seq![hint].last() == hint);
    assert(accumulated_hint(Seq::<H>::empty()) == H::spec_neutral());
    H::lemma_render_hint_laws(hint, hint, hint);
}

/// A hint asks for rendering exactly when it is not the neutral one.
pub proof fn lemma_should_render_iff_not_neutral<H: ModelRenderHint>(hint: H)
    ensures
        hint.spec_should_render() <==> hint != H::spec_neutral(),
{
    H::lemma_render_hint_laws(hint, H::spec_neutral(), hint);
}

/// The combination of two hints asks for rendering exactly when one of
/// them does.
pub proof fn lemma_should_render_add<H: ModelRenderHint>(a: H, b: H)
    ensures
        a.spec_add(b).spec_should_render() <==> a.spec_should_render() || b.spec_should_render(),
{
    H::lemma_render_hint_laws(a, b, a);
    H::lemma_render_hint_laws(b, a, b);
    H::lemma_render_hint_laws(H::spec_neutral(), H::spec_neutral(), H::spec_neutral());
    lemma_should_render_iff_not_neutral(a);
    lemma_should_render_iff_not_neutral(b);
}

/// The accumulated render hint asks for rendering exactly when one of the
/// hints does.
pub proof fn lemma_accumulated_hint_should_render<H: ModelRenderHint>(hints: Seq<H>)
    ensures
        accumulated_hint(hints).spec_should_render() <==> exists|i: int|
            0 <= i < hints.len() && (#[trigger] hints[i]).spec_should_render(),
    decreases hints.len(),
{
    H::lemma_render_hint_laws(H::spec_neutral(), H::spec_neutral(), H::spec_neutral());
    if hints.len() > 0 {
        let init = hints.drop_last();
        lemma_accumulated_hint_should_render(init);
        lemma_should_render_add(accumulated_hint(init), hints.last());
        if accumulated_hint(hints).spec_should_render() {
            if !hints.last().spec_should_render() {
                let i = choose|i: int| 0 <= i < init.len() && (#[trigger] init[i]).spec_should_render();
                assert(hints[i] == init[i]);
            }
        } else {
            assert forall|i: int| 0 <= i < hints.len() implies !(#[trigger] hints[i]).spec_should_render() by {
                if i < init.len() {
                    assert(hints[i] == init[i]);
                }
            }
        }
    }
}

proof fn lemma_follow_chain_fuel<M: Model>(model: M, next: Option<M::Effect>, fuel: nat, more: nat)
    requires
        follow_chain(model, next, fuel) is Some,
        fuel <= more,
    ensures
        follow_chain(model, next, more) == follow_chain(model, next, fuel),
    decreases fuel,
{
    if let Some(effect) = next {
        let applied = model.spec_apply_effect(effect);
        lemma_follow_chain_fuel(
            model.spec_after_effect(effect),
            applied.next_effect,
            (fuel - 1) as nat,
            (more - 1) as nat,
        );
    }
}

/// Processing with more fuel than the chain needs gives the same outcome.
proof fn lemma_run_message_fuel<M: Model>(model: M, message: Message<M::Intent, M::Effect>, fuel: nat, more: nat)
    requires
        run_message(model, message, fuel) is Some,
        fuel <= more,
    ensures
        run_message(model, message, more) == run_message(model, message, fuel),
{
    match message {
        Message::Effect(effect) => lemma_follow_chain_fuel(model, Some(effect), fuel, more),
        Message::Intent(intent) => match model.spec_handle_intent(intent) {
            IntentHandled::Rejected(_) => {},
            IntentHandled::Accepted(applied) => lemma_follow_chain_fuel(
                model.spec_after_intent(intent),
                applied.next_effect,
                fuel,
                more,
            ),
        },
    }
}

/// Whatever fuel suffices, processing gives the same state and chain.
pub proof fn lemma_run_message_deterministic<M: Model>(model: M, message: Message<M::Intent, M::Effect>, fuel: nat)
    requires
        run_message(model, message, fuel) is Some,
    ensures
        chain_ends(model, message),
        run_message(model, message, fuel) == Some(
            (processed_model(model, message), applied_chain(model, message)),
        ),
{
    let f = choose|f: nat| (#[trigger] run_message(model, message, f)) is Some;
    if f <= fuel {
        lemma_run_message_fuel(model, message, f, fuel);
    } else {
        lemma_run_message_fuel(model, message, fuel, f);
    }
}

/// A rejected intent is inert: nothing is applied, the model stays as it
/// is, no task is spawned and nothing asks for rendering.
pub proof fn lemma_rejected_intent_is_inert<M: Model>(model: M, intent: M::Intent)
    requires
        model.spec_handle_intent(intent) is Rejected,
    ensures
        chain_ends(model, Message::Intent(intent)),
        rejection(model, Message::Intent(intent)) == Some(model.spec_handle_intent(intent)->Rejected_0),
        applied_chain(model, Message::<M::Intent, M::Effect>::Intent(intent)).len() == 0,
        processed_model(model, Message::<M::Intent, M::Effect>::Intent(intent)) == model,
        chain_tasks(applied_chain(model, Message::<M::Intent, M::Effect>::Intent(intent))).len() == 0,
        !accumulated_hint(chain_hints(applied_chain(model, Message::<M::Intent, M::Effect>::Intent(intent)))).spec_should_render(),
{
    let message = Message::<M::Intent, M::Effect>::Intent(intent);
    lemma_run_message_deterministic(model, message, 0);
    let chain = applied_chain(model, message);
    assert(chain_hints(chain) =~= Seq::<M::RenderHint>::empty());
    let neutral = <M::RenderHint as ModelRenderHint>::spec_neutral();
    M::RenderHint::lemma_render_hint_laws(neutral, neutral, neutral);
}

/// Processing a rejected intent again, against the model that the first
/// rejection left, gives the same rejection.
pub proof fn lemma_rejection_is_idempotent<M: Model>(model: M, intent: M::Intent)
    requires
        model.spec_handle_intent(intent) is Rejected,
    ensures
        processed_model(model, Message::<M::Intent, M::Effect>::Intent(intent)) == model,
        rejection(
            processed_model(model, Message::<M::Intent, M::Effect>::Intent(intent)),
            Message::<M::Intent, M::Effect>::Intent(intent),
        ) == rejection(model, Message::<M::Intent, M::Effect>::Intent(intent)),
{
    lemma_rejected_intent_is_inert(model, intent);
}

/// The tasks of an outcome, as a sequence of at most one
pub open spec fn task_of<E, T, H>(applied: EffectApplied<E, T, H>) -> Seq<T> {
    match applied.task {
        Some(task) => seq![task],
        None => Seq::empty(),
    }
}

/// The tasks of a chain are the task of its first outcome, then those of
/// the rest, in order.
pub proof fn lemma_chain_tasks_prepend<E, T, H>(first: EffectApplied<E, T, H>, rest: Seq<EffectApplied<E, T, H>>)
    ensures
        chain_tasks(seq![first] + rest) == task_of(first) + chain_tasks(rest),
    decreases rest.len(),
{
    if rest.len() == 0 {
        assert(seq![first] + rest =~= seq![first]);
        assert(seq![first].drop_last() =~= Seq::<EffectApplied<E, T, H>>::empty());
        assert(seq![first].last() == first);
        assert(chain_tasks(Seq::<EffectApplied<E, T, H>>::empty()) == Seq::<T>::empty());
        assert(task_of(first) + Seq::<T>::empty() =~= task_of(first));
        assert(Seq::<T>::empty().push(first.task->0) =~= seq![first.task->0]);
    } else {
        let init = rest.drop_last();
        assert((seq![first] + rest).drop_last() =~= seq![first] + init);
        assert((seq![first] + rest).last() == rest.last());
        lemma_chain_tasks_prepend(first, init);
        if let Some(task) = rest.last().task {
            assert((task_of(first) + chain_tasks(init)).push(task) =~= task_of(first) + chain_tasks(init).push(task));
        }
    }
}

/// The outcome of an accepted intent is the first step of its chain, and its
/// task, if any, is the first task spawned, exactly as the model returned it.
pub proof fn lemma_accepted_task_comes_first<M: Model>(model: M, intent: M::Intent)
    requires
        model.spec_handle_intent(intent) is Accepted,
        chain_ends(model, Message::Intent(intent)),
    ensures
        applied_chain(model, Message::<M::Intent, M::Effect>::Intent(intent))[0] == model.spec_handle_intent(intent)->Accepted_0,
        chain_tasks(applied_chain(model, Message::<M::Intent, M::Effect>::Intent(intent))) == task_of(
            model.spec_handle_intent(intent)->Accepted_0,
        ) + chain_tasks(applied_chain(model, Message::<M::Intent, M::Effect>::Intent(intent)).drop_first()),
{
    let message = Message::<M::Intent, M::Effect>::Intent(intent);
    let fuel = choose|f: nat| (#[trigger] run_message(model, message, f)) is Some;
    lemma_run_message_deterministic(model, message, fuel);
    let applied = model.spec_handle_intent(intent)->Accepted_0;
    let rest = follow_chain(model.spec_after_intent(intent), applied.next_effect, fuel).unwrap().1;
    let chain = applied_chain(model, message);
    assert(chain == seq![applied] + rest);
    assert(chain.drop_first() =~= rest);
    lemma_chain_tasks_prepend(applied, rest);
}

/// Processing an effect applies it, then processes its next effect, if any,
/// from the state that it left: every link of the chain is applied, in
/// order, and the final state reflects each of them.
pub proof fn lemma_effect_chain_unfolds<M: Model>(model: M, effect: M::Effect)
    requires
        chain_ends(model, Message::Effect(effect)),
    ensures
        ({
            let message = Message::<M::Intent, M::Effect>::Effect(effect);
            let applied = model.spec_apply_effect(effect);
            let after = model.spec_after_effect(effect);
            &&& applied_chain(model, message).len() > 0
            &&& applied_chain(model, message)[0] == applied
            &&& match applied.next_effect {
                None => {
                    &&& applied_chain(model, message).len() == 1
                    &&& processed_model(model, message) == after
                },
                Some(next) => {
                    let follow_up = Message::<M::Intent, M::Effect>::Effect(next);
                    &&& chain_ends(after, follow_up)
                    &&& processed_model(model, message) == processed_model(after, follow_up)
                    &&& applied_chain(model, message) == seq![applied] + applied_chain(after, follow_up)
                },
            }
        }),
{
    let message = Message::<M::Intent, M::Effect>::Effect(effect);
    let fuel = choose|f: nat| (#[trigger] run_message(model, message, f)) is Some;
    lemma_run_message_deterministic(model, message, fuel);
    let applied = model.spec_apply_effect(effect);
    let after = model.spec_after_effect(effect);
    if let Some(next) = applied.next_effect {
        let follow_up = Message::<M::Intent, M::Effect>::Effect(next);
        assert(run_message(after, follow_up, (fuel - 1) as nat) is Some);
        lemma_run_message_deterministic(after, follow_up, (fuel - 1) as nat);
    } else {
        assert(seq![applied] + Seq::<EffectApplied<M::Effect, M::Task, M::RenderHint>>::empty() =~= seq![applied]);
    }
}

/// A chain whose steps spawn no task and leave the neutral render hint
/// spawns nothing and does not ask for rendering, so processing it makes no
/// progress, whatever it changed in the model.
pub proof fn lemma_silent_chain_makes_no_progress<E, T, H: ModelRenderHint>(chain: Seq<EffectApplied<E, T, H>>)
    requires
        forall|i: int| 0 <= i < chain.len() ==> (#[trigger] chain[i]).task is None,
        forall|i: int| 0 <= i < chain.len() ==> (#[trigger] chain[i]).render_hint == H::spec_neutral(),
    ensures
        chain_tasks(chain).len() == 0,
        accumulated_hint(chain_hints(chain)) == H::spec_neutral(),
        !accumulated_hint(chain_hints(chain)).spec_should_render(),
    decreases chain.len(),
{
    H::lemma_render_hint_laws(H::spec_neutral(), H::spec_neutral(), H::spec_neutral());
    if chain.len() > 0 {
        let init = chain.drop_last();
        assert forall|i: int| 0 <= i < init.len() implies (#[trigger] init[i]).task is None && init[i].render_hint == H::spec_neutral() by {
            assert(init[i] == chain[i]);
        }
        lemma_silent_chain_makes_no_progress(init);
        assert(chain_hints(chain).drop_last() =~= chain_hints(init));
        assert(chain.last() == chain[chain.len() - 1]);
    }
}

/// An effect without a next effect is a chain of one step, and the render
/// hint that processing it accumulates is the hint that applying it
/// returned.
pub proof fn lemma_single_effect_hint<M: Model>(model: M, effect: M::Effect)
    requires
        model.spec_apply_effect(effect).next_effect is None,
    ensures
        chain_ends(model, Message::Effect(effect)),
        applied_chain(model, Message::<M::Intent, M::Effect>::Effect(effect)) == seq![
            model.spec_apply_effect(effect),
        ],
        accumulated_hint(chain_hints(applied_chain(model, Message::<M::Intent, M::Effect>::Effect(effect))))
            == model.spec_apply_effect(effect).render_hint,
{
    let message = Message::<M::Intent, M::Effect>::Effect(effect);
    let applied = model.spec_apply_effect(effect);
    assert(follow_chain(model.spec_after_effect(effect), applied.next_effect, 0) is Some);
    assert(run_message(model, message, 1) is Some);
    lemma_run_message_deterministic(model, message, 1);
    lemma_effect_chain_unfolds(model, effect);
    assert(applied_chain(model, message) =~= seq![applied]);
    assert(chain_hints(seq![applied]) =~= seq![applied.render_hint]);
    lemma_accumulated_hint_single(applied.render_hint);
}

} // verus!
