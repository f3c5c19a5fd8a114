use vstd::prelude::*;

use crate::effect::EffectApplied;
use crate::intent::IntentHandled;

verus! {

/// The outcome of handling an intent of model `M`
pub type IntentHandledOf<M> = IntentHandled<
    <M as Model>::IntentRejected,
    <M as Model>::Effect,
    <M as Model>::Task,
    <M as Model>::RenderHint,
>;

/// The outcome of applying an effect to model `M`
pub type EffectAppliedOf<M> = EffectApplied<
    <M as Model>::Effect,
    <M as Model>::Task,
    <M as Model>::RenderHint,
>;

/// A stateful model
///
/// Handling intents and applying effects is deterministic: what either
/// returns, and the state it leaves, depend on the current state and on
/// its argument alone. So recording the accepted intents and the applied
/// effects suffices to reconstruct the state from any initial state.
///
/// The `spec_` functions state that outcome. An implementation outside
/// verified code provides them as ordinary functions that compute it, for
/// instance by handling or applying on a clone.
pub trait Model: Sized {
    /// An intent type that this model handles
    type Intent;

    /// The result of rejecting an intent
    type IntentRejected;

    /// An effect type that can be applied to this model
    type Effect;

    /// A task type for inducing side-effects
    type Task;

    /// A hint for rendering
    type RenderHint: ModelRenderHint;

    /// The outcome of handling `intent` in this state
    spec fn spec_handle_intent(&self, intent: Self::Intent) -> IntentHandledOf<Self>;

    /// The state after handling `intent` in this state
    spec fn spec_after_intent(&self, intent: Self::Intent) -> Self;

    /// The outcome of applying `effect` in this state
    spec fn spec_apply_effect(&self, effect: Self::Effect) -> EffectAppliedOf<Self>;

    /// The state after applying `effect` in this state
    spec fn spec_after_effect(&self, effect: Self::Effect) -> Self;

    /// Handle an intent
    ///
    /// A rejected intent leaves the model unchanged. An accepted intent
    /// applies its corresponding, implicit effect and returns its outcome.
    fn handle_intent(&mut self, intent: Self::Intent) -> (r: IntentHandledOf<Self>)
        ensures
            r == old(self).spec_handle_intent(intent),
            *final(self) == old(self).spec_after_intent(intent),
            r is Rejected ==> *final(self) == *old(self),
    ;

    /// Apply an effect to the model
    fn apply_effect(&mut self, effect: Self::Effect) -> (r: EffectAppliedOf<Self>)
        ensures
            r == old(self).spec_apply_effect(effect),
            *final(self) == old(self).spec_after_effect(effect),
    ;
}

/// Render the model after it has changed
pub trait ModelRender: Sized {
    /// The model
    type Model: Model;

    /// Whether rendering `model` with `hint` may take the renderer from
    /// `before` to `after` and observe `observed`
    spec fn spec_render(
        before: Self,
        model: Self::Model,
        hint: <Self::Model as Model>::RenderHint,
        after: Self,
        observed: Option<<Self::Model as Model>::Intent>,
    ) -> bool;

    /// Render the model after it has changed
    ///
    /// Might return an observed intent that is enqueued as a message and
    /// handled in turn later.
    fn render_model(
        &mut self,
        model: &Self::Model,
        hint: <Self::Model as Model>::RenderHint,
    ) -> (r: Option<<Self::Model as Model>::Intent>)
        ensures
            Self::spec_render(*old(self), *model, hint, *final(self), r),
    ;
}

/// Control rendering after applying effects
///
/// Render hints are additive, like a bloom filter: the neutral value never
/// asks for rendering, and adding anything that is not neutral always does.
pub trait ModelRenderHint: Sized {
    /// The neutral hint
    spec fn spec_neutral() -> Self;

    /// The combination of two hints
    spec fn spec_add(self, rhs: Self) -> Self;

    /// Whether the hint asks for rendering the model
    spec fn spec_should_render(&self) -> bool;

    /// The laws that every render hint obeys
    proof fn lemma_render_hint_laws(a: Self, b: Self, c: Self)
        ensures
            !Self::spec_neutral().spec_should_render(),
            Self::spec_neutral().spec_add(a) == a,
            a.spec_add(b) == b.spec_add(a),
            a.spec_add(b).spec_add(c) == a.spec_add(b.spec_add(c)),
            a != Self::spec_neutral() ==> a.spec_add(b).spec_should_render(),
    ;

    /// The neutral hint
    fn neutral() -> (r: Self)
        ensures
            r == Self::spec_neutral(),
    ;

    /// Combine two hints
    fn add_hint(self, rhs: Self) -> (r: Self)
        ensures
            r == self.spec_add(rhs),
    ;

    /// Decide if the model needs to be rendered
    fn should_render_model(&self) -> (r: bool)
        ensures
            r == self.spec_should_render(),
    ;
}

/// Model change indicator
///
/// The most basic render hint, a two-state flag.
#[derive(Debug, Clone, Copy, PartialEq, Eq, Structural)]
pub enum ModelChanged {
    /// No changes are observable and rendering could be skipped
    Unchanged,
    /// The model might have changed and needs to be rendered
    MaybeChanged,
}

impl ModelChanged {
    /// The combination of two change indicators
    pub open spec fn spec_combine(self, rhs: Self) -> Self {
        if self == ModelChanged::Unchanged && rhs == ModelChanged::Unchanged {
            ModelChanged::Unchanged
        } else {
            ModelChanged::MaybeChanged
        }
    }
}

impl Default for ModelChanged {
    fn default() -> (r: Self)
        ensures
            r == ModelChanged::Unchanged,
    {
        ModelChanged::Unchanged
    }
}

impl core::ops::Add for ModelChanged {
    type Output = Self;

    fn add(self, rhs: Self) -> (r: Self)
        ensures
            r == self.spec_combine(rhs),
    {
        match (self, rhs) {
            (ModelChanged::Unchanged, ModelChanged::Unchanged) => ModelChanged::Unchanged,
            _ => ModelChanged::MaybeChanged,
        }
    }
}

impl vstd::std_specs::ops::AddSpecImpl for ModelChanged {
    open spec fn obeys_add_spec() -> bool {
        true
    }

    open spec fn add_req(self, rhs: Self) -> bool {
        true
    }

    open spec fn add_spec(self, rhs: Self) -> Self {
        self.spec_combine(rhs)
    }
}

impl core::ops::AddAssign for ModelChanged {
    fn add_assign(&mut self, other: Self)
        ensures
            *final(self) == old(self).spec_combine(other),
    {
        *self = *self + other;
    }
}

impl ModelRenderHint for ModelChanged {
    open spec fn spec_neutral() -> Self {
        ModelChanged::Unchanged
    }

    open spec fn spec_add(self, rhs: Self) -> Self {
        self.spec_combine(rhs)
    }

    open spec fn spec_should_render(&self) -> bool {
        *self == ModelChanged::MaybeChanged
    }

    proof fn lemma_render_hint_laws(a: Self, b: Self, c: Self) {
    }

    fn neutral() -> (r: Self) {
        ModelChanged::default()
    }

    fn add_hint(self, rhs: Self) -> (r: Self) {
        self + rhs
    }

    fn should_render_model(&self) -> (r: bool) {
        match self {
            ModelChanged::Unchanged => false,
            ModelChanged::MaybeChanged => true,
        }
    }
}

} // verus!
