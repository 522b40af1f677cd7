use vstd::prelude::*;

use crate::config::MonotonicGuardConfig;
use crate::guard::MonotonicGuard;

verus! {

/// Errors in setting up a middleware from its configuration.
#[derive(Debug)]
pub enum MiddlewareSetupError {
    InvalidConfiguration(String),
}

/// The message of the error for a configuration that could not be parsed, where the
/// parser explained why with `reason`.
pub open spec fn parse_failure_message(reason: Seq<char>) -> Seq<char> {
    "Failed to parse MonotonicGuard configuration: "@ + reason
}

/// The message of the error for a configuration whose timestamp property is empty.
pub open spec fn empty_property_message() -> Seq<char> {
    "timestamp_property cannot be empty"@
}

/// Factory for creating MonotonicGuard middleware instances.
pub struct MonotonicGuardFactory;

impl MonotonicGuardFactory {
    pub fn new() -> (f: Self)
        ensures
            f == MonotonicGuardFactory,
    {
        MonotonicGuardFactory
    }

    /// The kind name under which the middleware is registered.
    pub fn name(&self) -> (n: String)
        ensures
            n@ == "monotonic-guard"@,
    {
        String::from_str("monotonic-guard")
    }

    /// Creates a guard from a configuration, given as the result of parsing the
    /// middleware's configuration object (with the parser's explanation on failure).
    /// A configuration that could not be parsed, or whose timestamp property is empty,
    /// is refused as invalid.
    pub fn create(&self, parsed: Result<MonotonicGuardConfig, String>) -> (res: Result<
        MonotonicGuard,
        MiddlewareSetupError,
    >)
        ensures
            match parsed {
                Err(reason) => match res {
                    Err(MiddlewareSetupError::InvalidConfiguration(msg)) => msg@
                        == parse_failure_message(reason@),
                    Ok(_) => false,
                },
                Ok(config) => if config.timestamp_property@.len() == 0 {
                    match res {
                        Err(MiddlewareSetupError::InvalidConfiguration(msg)) => msg@
                            == empty_property_message(),
                        Ok(_) => false,
                    }
                } else {
                    match res {
                        Ok(guard) => guard.property_name() == config.timestamp_property@
                            && guard.falls_back() == config.fallback_to_effective_from,
                        Err(_) => false,
                    }
                },
            },
    {
        match parsed {
            Err(reason) => {
                let msg = String::from_str("Failed to parse MonotonicGuard configuration: ").concat(
                    reason.as_str(),
                );
                Err(MiddlewareSetupError::InvalidConfiguration(msg))
            },
            Ok(config) => {
                if config.timestamp_property.as_str().is_empty() {
                    return Err(
                        MiddlewareSetupError::InvalidConfiguration(
                            String::from_str("timestamp_property cannot be empty"),
                        ),
                    );
                }
                Ok(MonotonicGuard::new(config))
            },
        }
    }
}

impl Default for MonotonicGuardFactory {
    fn default() -> (f: Self)
        ensures
            f == MonotonicGuardFactory,
    {
        Self::new()
    }
}

} // verus!
