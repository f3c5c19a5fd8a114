use vstd::prelude::*;

verus! {

/// An intent or an effect
///
/// Intents are proposals that the model may reject before anything
/// happens. Effects are inevitable and must be applied to the model.
#[derive(Debug, Clone, Copy, PartialEq, Eq)]
pub enum Message<Intent, Effect> {
    /// A proposal that might be rejected before causing an effect
    Intent(Intent),
    /// A mutation that cannot be rejected
    Effect(Effect),
}

} // verus!
