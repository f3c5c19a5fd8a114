use vstd::prelude::*;
use vstd::std_specs::convert::IntoSpec;

use crate::action::converted;
use crate::effect::{converted_inner, EffectApplied};

verus! {

/// Outcome of handling an intent
#[derive(Debug, Clone, Copy, PartialEq, Eq)]
pub enum IntentHandled<Rejected, Effect, Task, RenderHint> {
    /// The intent has been rejected
    Rejected(Rejected),
    /// The intent has been accepted by applying an effect
    Accepted(EffectApplied<Effect, Task, RenderHint>),
}

/// `to` is `from` with each of its parts converted.
pub open spec fn converted_effect_applied<E: Into<Effect>, T: Into<Task>, M: Into<RenderHint>, Effect, Task, RenderHint>(
    from: EffectApplied<E, T, M>,
    to: EffectApplied<Effect, Task, RenderHint>,
) -> bool {
    &&& converted(from.render_hint, to.render_hint)
    &&& converted_inner(from.task, to.task)
    &&& converted_inner(from.next_effect, to.next_effect)
}

impl<Rejected, Effect, Task, RenderHint> IntentHandled<Rejected, Effect, Task, RenderHint> {
    /// Reject an intent
    pub fn rejected<R: Into<Rejected>>(rejected: R) -> (r: Self)
        ensures
            r matches IntentHandled::Rejected(x) && converted(rejected, x),
    {
        Self::Rejected(rejected.into())
    }

    /// Accept an intent
    pub fn accepted<E, T, M>(effect_applied: EffectApplied<E, T, M>) -> (r: Self) where
        E: Into<Effect>,
        T: Into<Task>,
        M: Into<RenderHint>,
        ensures
            r matches IntentHandled::Accepted(a) && converted_effect_applied(effect_applied, a),
    {
        Self::Accepted(EffectApplied::map_from(effect_applied))
    }

    /// Map from a differently parameterized type
    pub fn map_from<R, E, T, M>(from: IntentHandled<R, E, T, M>) -> (r: Self) where
        R: Into<Rejected>,
        E: Into<Effect>,
        T: Into<Task>,
        M: Into<RenderHint>,
        ensures
            match from {
                IntentHandled::Rejected(x) => r matches IntentHandled::Rejected(y) && converted(x, y),
                IntentHandled::Accepted(a) => r matches IntentHandled::Accepted(b)
                    && converted_effect_applied(a, b),
            },
    {
        match from {
            IntentHandled::Rejected(rejected) => Self::Rejected(rejected.into()),
            IntentHandled::Accepted(effect_applied) => Self::Accepted(
                EffectApplied::map_from(effect_applied),
            ),
        }
    }

    /// Map into a differently parameterized type
    pub fn map_into<R, E, T, M>(self) -> (r: IntentHandled<R, E, T, M>) where
        R: From<Rejected>,
        E: From<Effect>,
        T: From<Task>,
        M: From<RenderHint>,
        ensures
            match self {
                IntentHandled::Rejected(x) => r matches IntentHandled::Rejected(y) && converted(x, y),
                IntentHandled::Accepted(a) => r matches IntentHandled::Accepted(b)
                    && converted_effect_applied(a, b),
            },
    {
        IntentHandled::map_from(self)
    }
}

impl<Rejected, Effect, Task, RenderHint> From<EffectApplied<Effect, Task, RenderHint>> for IntentHandled<Rejected, Effect, Task, RenderHint> {
    fn from(effect_applied: EffectApplied<Effect, Task, RenderHint>) -> (r: Self) {
        IntentHandled::Accepted(effect_applied)
    }
}

impl<Rejected, Effect, Task, RenderHint> vstd::std_specs::convert::FromSpecImpl<EffectApplied<Effect, Task, RenderHint>> for IntentHandled<Rejected, Effect, Task, RenderHint> {
    open spec fn obeys_from_spec() -> bool {
        true
    }

    open spec fn from_spec(v: EffectApplied<Effect, Task, RenderHint>) -> Self {
        IntentHandled::Accepted(v)
    }
}

/// Whether the results of the conversions of all parts are known to the
/// verifier
pub open spec fn conversions_obey_spec<R: Into<Rejected>, E: Into<Effect>, T: Into<Task>, M: Into<RenderHint>, Rejected, Effect, Task, RenderHint>() -> bool {
    &&& R::obeys_into_spec()
    &&& E::obeys_into_spec()
    &&& T::obeys_into_spec()
    &&& M::obeys_into_spec()
}

/// The conversion of what an option holds
pub open spec fn spec_convert_inner<T: Into<U>, U>(from: Option<T>) -> Option<U> {
    match from {
        None => None,
        Some(t) => Some(t.into_spec()),
    }
}

/// `from` with each of its parts converted
pub open spec fn spec_convert_effect_applied<E: Into<Effect>, T: Into<Task>, M: Into<RenderHint>, Effect, Task, RenderHint>(
    from: EffectApplied<E, T, M>,
) -> EffectApplied<Effect, Task, RenderHint> {
    EffectApplied {
        render_hint: from.render_hint.into_spec(),
        task: spec_convert_inner(from.task),
        next_effect: spec_convert_inner(from.next_effect),
    }
}

proof fn lemma_converted_effect_applied<E: Into<Effect>, T: Into<Task>, M: Into<RenderHint>, Effect, Task, RenderHint>(
    from: EffectApplied<E, T, M>,
    to: EffectApplied<Effect, Task, RenderHint>,
)
    requires
        converted_effect_applied(from, to),
        E::obeys_into_spec(),
        T::obeys_into_spec(),
        M::obeys_into_spec(),
    ensures
        to == spec_convert_effect_applied::<E, T, M, Effect, Task, RenderHint>(from),
{
}

/// Representation of [`IntentHandled`] as a [`Result`]
///
/// [`IntentHandled`] converts from and into this result type.
pub type IntentHandledResult<Rejected, Effect, Task, RenderHint> = Result<
    EffectApplied<Effect, Task, RenderHint>,
    Rejected,
>;

impl<Rejected, Effect, Task, RenderHint, R, E, T, M> From<IntentHandledResult<R, E, T, M>> for IntentHandled<Rejected, Effect, Task, RenderHint> where R: Into<Rejected>, Effect: From<E>, Task: From<T>, RenderHint: From<M> {
    fn from(res: IntentHandledResult<R, E, T, M>) -> (r: Self) {
        match res {
            Ok(effect_applied) => {
                let a = effect_applied.map_into();
                proof {
                    if conversions_obey_spec::<R, E, T, M, Rejected, Effect, Task, RenderHint>() {
                        lemma_converted_effect_applied(effect_applied, a);
                    }
                }
                Self::Accepted(a)
            },
            Err(intent_rejected) => Self::Rejected(intent_rejected.into()),
        }
    }
}

impl<Rejected, Effect, Task, RenderHint, R, E, T, M> vstd::std_specs::convert::FromSpecImpl<IntentHandledResult<R, E, T, M>> for IntentHandled<Rejected, Effect, Task, RenderHint> where R: Into<Rejected>, Effect: From<E>, Task: From<T>, RenderHint: From<M> {
    open spec fn obeys_from_spec() -> bool {
        conversions_obey_spec::<R, E, T, M, Rejected, Effect, Task, RenderHint>()
    }

    open spec fn from_spec(v: IntentHandledResult<R, E, T, M>) -> Self {
        match v {
            Ok(a) => IntentHandled::Accepted(spec_convert_effect_applied(a)),
            Err(x) => IntentHandled::Rejected(x.into_spec()),
        }
    }
}

impl<Rejected, Effect, Task, RenderHint, R, E, T, M> From<IntentHandled<R, E, T, M>> for IntentHandledResult<Rejected, Effect, Task, RenderHint> where R: Into<Rejected>, Effect: From<E>, Task: From<T>, RenderHint: From<M> {
    fn from(intent_handled: IntentHandled<R, E, T, M>) -> (r: Self) {
        match intent_handled {
            IntentHandled::Accepted(effect_applied) => {
                let a = effect_applied.map_into();
                proof {
                    if conversions_obey_spec::<R, E, T, M, Rejected, Effect, Task, RenderHint>() {
                        lemma_converted_effect_applied(effect_applied, a);
                    }
                }
                Ok(a)
            },
            IntentHandled::Rejected(rejected) => Err(rejected.into()),
        }
    }
}

impl<Rejected, Effect, Task, RenderHint, R, E, T, M> vstd::std_specs::convert::FromSpecImpl<IntentHandled<R, E, T, M>> for IntentHandledResult<Rejected, Effect, Task, RenderHint> where R: Into<Rejected>, Effect: From<E>, Task: From<T>, RenderHint: From<M> {
    open spec fn obeys_from_spec() -> bool {
        conversions_obey_spec::<R, E, T, M, Rejected, Effect, Task, RenderHint>()
    }

    open spec fn from_spec(v: IntentHandled<R, E, T, M>) -> Self {
        match v {
            IntentHandled::Accepted(a) => Ok(spec_convert_effect_applied(a)),
            IntentHandled::Rejected(x) => Err(x.into_spec()),
        }
    }
}

} // verus!
