//! An action-based variant of the outcome types: updating a
//! state yields at most one next action instead of a task and a chain of
//! next effects.

use vstd::prelude::*;
use vstd::std_specs::convert::IntoSpec;

use crate::action::{converted_action, Action};

verus! {

/// Perceptible effect when updating the state
#[derive(Debug, Clone, Copy, PartialEq, Eq, Structural)]
pub enum StateChanged {
    /// The state has not changed
    Unchanged,
    /// The state might have changed
    ///
    /// False positives are allowed: when unsure, or when finding out is
    /// costly or impossible, use this variant.
    MaybeChanged,
}

impl StateChanged {
    /// The combination of two change indicators
    pub open spec fn spec_combine(self, rhs: Self) -> Self {
        if self == StateChanged::Unchanged && rhs == StateChanged::Unchanged {
            StateChanged::Unchanged
        } else {
            StateChanged::MaybeChanged
        }
    }
}

impl core::ops::Add for StateChanged {
    type Output = Self;

    fn add(self, rhs: Self) -> (r: Self)
        ensures
            r == self.spec_combine(rhs),
    {
        match (self, rhs) {
            (StateChanged::Unchanged, StateChanged::Unchanged) => StateChanged::Unchanged,
            _ => StateChanged::MaybeChanged,
        }
    }
}

impl vstd::std_specs::ops::AddSpecImpl for StateChanged {
    open spec fn obeys_add_spec() -> bool {
        true
    }

    open spec fn add_req(self, rhs: Self) -> bool {
        true
    }

    open spec fn add_spec(self, rhs: Self) -> Self {
        self.spec_combine(rhs)
    }
}

impl core::ops::AddAssign for StateChanged {
    fn add_assign(&mut self, other: Self)
        ensures
            *final(self) == old(self).spec_combine(other),
    {
        *self = *self + other;
    }
}

/// Outcome of updating the state
#[derive(Debug, Clone, Copy, PartialEq, Eq)]
pub struct StateUpdated<Effect, Task> {
    /// The outcome on the state itself
    pub changed: StateChanged,
    /// The next action, if any
    pub next_action: Option<Action<Effect, Task>>,
}

impl<Effect, Task> StateUpdated<Effect, Task> {
    /// Mark the state as unchanged
    pub fn unchanged<A: Into<Option<Action<Effect, Task>>>>(next_action: A) -> (r: Self)
        ensures
            r.changed == StateChanged::Unchanged,
            A::obeys_into_spec() ==> r.next_action == next_action.into_spec(),
    {
        Self { changed: StateChanged::Unchanged, next_action: next_action.into() }
    }

    /// Mark the state as maybe changed
    pub fn maybe_changed<A: Into<Option<Action<Effect, Task>>>>(next_action: A) -> (r: Self)
        ensures
            r.changed == StateChanged::MaybeChanged,
            A::obeys_into_spec() ==> r.next_action == next_action.into_spec(),
    {
        Self { changed: StateChanged::MaybeChanged, next_action: next_action.into() }
    }
}

/// Map the outcome of an update into a differently parameterized type
pub fn state_updated<E1, T1, E2, T2>(from: StateUpdated<E1, T1>) -> (r: StateUpdated<E2, T2>) where
    E1: Into<E2>,
    T1: Into<T2>,
    ensures
        r.changed == from.changed,
        match from.next_action {
            None => r.next_action is None,
            Some(action) => r.next_action matches Some(a) && converted_action(action, a),
        },
{
    let StateUpdated { changed, next_action } = from;
    let next_action = match next_action {
        None => None,
        Some(Action::ApplyEffect(effect)) => Some(Action::apply_effect(effect)),
        Some(Action::SpawnTask(task)) => Some(Action::spawn_task(task)),
    };
    StateUpdated { changed, next_action }
}

/// Outcome of handling an intent by a [`State`]
#[derive(Debug, Clone, Copy, PartialEq, Eq)]
pub enum IntentHandled<Intent, Effect, Task> {
    /// The intent has been accepted, with its next action, if any
    Accepted(Option<Action<Effect, Task>>),
    /// The intent has been rejected and is handed back
    Rejected(Intent),
}

/// A state that handles intents and is updated by effects
pub trait State {
    /// The intent type
    type Intent;

    /// The effect type
    type Effect;

    /// The task type
    type Task;

    /// Handle an intent, without changing the state
    fn handle_intent(&self, intent: Self::Intent) -> IntentHandled<Self::Intent, Self::Effect, Self::Task>;

    /// Update the state by applying an effect
    fn update(&mut self, effect: Self::Effect) -> StateUpdated<Self::Effect, Self::Task>;
}

/// Render a [`State`]
pub trait RenderState {
    /// The state
    type State: State;

    /// Render the state, possibly observing an intent
    fn render_state(&mut self, state: &Self::State) -> Option<<Self::State as State>::Intent>;
}

} // verus!
