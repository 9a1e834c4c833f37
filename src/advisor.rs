use vstd::prelude::*;

verus! {

/// Service that computes advisory rates and prices.
#[derive(Debug, Clone, Copy, PartialEq, Eq, Structural)]
pub enum Provider {
    OpenRouter,
    Gemini,
}

/// The service asked when none is chosen.
pub fn default_provider() -> (r: Provider)
    ensures
        r == Provider::OpenRouter,
{
    Provider::OpenRouter
}

/// Whether an advisory rate differs from the current one, so that a rate change is
/// worth submitting.
pub fn needs_rate_update(current_rate_bps: u16, suggested_rate_bps: u16) -> (r: bool)
    ensures
        r == (current_rate_bps != suggested_rate_bps),
{
    current_rate_bps != suggested_rate_bps
}

} // verus!
