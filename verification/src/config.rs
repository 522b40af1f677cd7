use vstd::prelude::*;

verus! {

/// Configuration for the MonotonicGuard middleware.
#[derive(Debug, Clone)]
pub struct MonotonicGuardConfig {
    /// The property name to check for timestamps (e.g., "last_modified_at").
    pub timestamp_property: String,
    /// Whether to fall back to the element's `effective_from` when the timestamp
    /// property is missing or is not an integer. Defaults to true.
    pub fallback_to_effective_from: bool,
}

/// The value that `fallback_to_effective_from` takes when a configuration leaves it out.
pub fn default_fallback() -> (b: bool)
    ensures
        b,
{
    true
}

} // verus!
