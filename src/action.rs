use vstd::prelude::*;
use vstd::std_specs::convert::IntoSpec;

verus! {

/// `to` is what `from.into()` returns, for every conversion whose result
/// is known to the verifier (`obeys_into_spec`).
pub open spec fn converted<A: Into<B>, B>(from: A, to: B) -> bool {
    A::obeys_into_spec() ==> to == from.into_spec()
}

/// `to` is `from` with its effect or task converted.
pub open spec fn converted_action<E: Into<Effect>, T: Into<Task>, Effect, Task>(
    from: Action<E, T>,
    to: Action<Effect, Task>,
) -> bool {
    match from {
        Action::ApplyEffect(effect) => to matches Action::ApplyEffect(e) && converted(effect, e),
        Action::SpawnTask(task) => to matches Action::SpawnTask(t) && converted(task, t),
    }
}

/// An effect or a task
///
/// Actions are the result of handling intents or applying effects.
/// Each intent or effect induces at most one next action.
#[derive(Debug, Clone, Copy, PartialEq, Eq)]
pub enum Action<Effect, Task> {
    /// Apply an effect
    ApplyEffect(Effect),
    /// Spawn a task
    SpawnTask(Task),
}

impl<Effect, Task> Action<Effect, Task> {
    /// Map from a differently parameterized type
    pub fn map_from<E, T>(from: Action<E, T>) -> (r: Self) where E: Into<Effect>, T: Into<Task>
        ensures
            converted_action(from, r),
    {
        match from {
            Action::ApplyEffect(effect) => Self::ApplyEffect(effect.into()),
            Action::SpawnTask(task) => Self::SpawnTask(task.into()),
        }
    }

    /// Map into a differently parameterized type
    pub fn map_into<E, T>(self) -> (r: Action<E, T>) where E: From<Effect>, T: From<Task>
        ensures
            converted_action(self, r),
    {
        Action::map_from(self)
    }

    /// Create a new action that applies an effect
    pub fn apply_effect<E: Into<Effect>>(effect: E) -> (r: Self)
        ensures
            r matches Action::ApplyEffect(e) && converted(effect, e),
    {
        Self::ApplyEffect(effect.into())
    }

    /// Create a new action that spawns a task
    pub fn spawn_task<T: Into<Task>>(task: T) -> (r: Self)
        ensures
            r matches Action::SpawnTask(t) && converted(task, t),
    {
        Self::SpawnTask(task.into())
    }
}

} // verus!
