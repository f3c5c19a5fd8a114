use vstd::prelude::*;
use vstd::std_specs::convert::IntoSpec;

use crate::action::converted;
use crate::model::{ModelChanged, ModelRenderHint};

verus! {

/// `to` holds what `from.into()`, then the conversion of its content,
/// returns, for conversions whose results are known to the verifier.
pub open spec fn converted_option<O: Into<Option<T>>, T: Into<U>, U>(from: O, to: Option<U>) -> bool {
    O::obeys_into_spec() ==> match from.into_spec() {
        None => to is None,
        Some(t) => to matches Some(u) && converted(t, u),
    }
}

/// `to` holds the conversion of what `from` holds.
pub open spec fn converted_inner<T: Into<U>, U>(from: Option<T>, to: Option<U>) -> bool {
    match from {
        None => to is None,
        Some(t) => to matches Some(u) && converted(t, u),
    }
}

/// Convert the content of an option
fn convert_inner<T: Into<U>, U>(from: Option<T>) -> (r: Option<U>)
    ensures
        converted_inner(from, r),
{
    match from {
        None => None,
        Some(t) => Some(t.into()),
    }
}

/// Convert into an option, then convert its content
fn convert_option<O: Into<Option<T>>, T: Into<U>, U>(from: O) -> (r: Option<U>)
    ensures
        converted_option(from, r),
{
    convert_inner(from.into())
}

/// Outcome of applying an effect to the model
#[derive(Debug, Clone, Copy, PartialEq, Eq)]
pub struct EffectApplied<Effect, Task, RenderHint> {
    /// A hint for rendering the model
    pub render_hint: RenderHint,
    /// A follow-up task for triggering side-effects
    pub task: Option<Task>,
    /// A follow-up effect that is processed before any queued message
    ///
    /// Useful for deferring the application of received effects while a
    /// side-effect is pending: when it has finished the deferred effects
    /// are recalled one after another before the regular message
    /// processing continues.
    pub next_effect: Option<Effect>,
}

impl<Effect, Task, RenderHint: ModelRenderHint> EffectApplied<Effect, Task, RenderHint> {
    /// Mark the model as unchanged
    pub fn unchanged() -> (r: Self)
        ensures
            r.render_hint == RenderHint::spec_neutral(),
            !r.render_hint.spec_should_render(),
            r.task is None,
            r.next_effect is None,
    {
        let render_hint = RenderHint::neutral();
        proof {
            RenderHint::lemma_render_hint_laws(render_hint, render_hint, render_hint);
        }
        Self { render_hint, task: None, next_effect: None }
    }

    /// Mark the model as unchanged and dispatch a task
    pub fn unchanged_task<O: Into<Option<T>>, T: Into<Task>>(task: O) -> (r: Self)
        ensures
            r.render_hint == RenderHint::spec_neutral(),
            converted_option(task, r.task),
            r.next_effect is None,
    {
        Self { task: convert_option(task), ..Self::unchanged() }
    }

    /// Mark the model as unchanged and apply a next effect
    pub fn unchanged_next<O: Into<Option<E>>, E: Into<Effect>>(next_effect: O) -> (r: Self)
        ensures
            r.render_hint == RenderHint::spec_neutral(),
            r.task is None,
            converted_option(next_effect, r.next_effect),
    {
        Self { next_effect: convert_option(next_effect), ..Self::unchanged() }
    }
}

impl<Effect, Task> EffectApplied<Effect, Task, ModelChanged> {
    /// Mark the model as maybe changed
    pub fn maybe_changed() -> (r: Self)
        ensures
            r.render_hint == ModelChanged::MaybeChanged,
            r.task is None,
            r.next_effect is None,
    {
        Self { render_hint: ModelChanged::MaybeChanged, task: None, next_effect: None }
    }

    /// Mark the model as maybe changed and dispatch a task
    pub fn maybe_changed_task<O: Into<Option<T>>, T: Into<Task>>(task: O) -> (r: Self)
        ensures
            r.render_hint == ModelChanged::MaybeChanged,
            converted_option(task, r.task),
            r.next_effect is None,
    {
        Self { task: convert_option(task), ..Self::maybe_changed() }
    }

    /// Mark the model as maybe changed and apply a next effect
    pub fn maybe_changed_next<O: Into<Option<E>>, E: Into<Effect>>(next_effect: O) -> (r: Self)
        ensures
            r.render_hint == ModelChanged::MaybeChanged,
            r.task is None,
            converted_option(next_effect, r.next_effect),
    {
        Self { next_effect: convert_option(next_effect), ..Self::maybe_changed() }
    }
}

impl<Effect, Task, RenderHint> EffectApplied<Effect, Task, RenderHint> {
    /// Map from a differently parameterized type
    pub fn map_from<E, T, M>(from: EffectApplied<E, T, M>) -> (r: Self) where
        E: Into<Effect>,
        T: Into<Task>,
        M: Into<RenderHint>,
        ensures
            converted(from.render_hint, r.render_hint),
            converted_inner(from.task, r.task),
            converted_inner(from.next_effect, r.next_effect),
    {
        let EffectApplied { render_hint, task, next_effect } = from;
        Self {
            render_hint: render_hint.into(),
            task: convert_inner(task),
            next_effect: convert_inner(next_effect),
        }
    }

    /// Map into a differently parameterized type
    pub fn map_into<E, T, M>(self) -> (r: EffectApplied<E, T, M>) where
        E: From<Effect>,
        T: From<Task>,
        M: From<RenderHint>,
        ensures
            converted(self.render_hint, r.render_hint),
            converted_inner(self.task, r.task),
            converted_inner(self.next_effect, r.next_effect),
    {
        EffectApplied::map_from(self)
    }
}

} // verus!
