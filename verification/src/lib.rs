//! A source middleware that enforces "event time wins" semantics: an update of an
//! element is forwarded only when it is strictly newer than the stored version of
//! that element, so that delayed events never overwrite newer state.

pub mod config;
pub mod element;
pub mod factory;
pub mod guard;

pub use config::{default_fallback, MonotonicGuardConfig};
pub use element::{
    Element, ElementMetadata, ElementPropertyMap, ElementReference, ElementValue,
    FutureElementRef, SourceChange,
};
pub use factory::{MiddlewareSetupError, MonotonicGuardFactory};
pub use guard::{Disposition, GuardStep, MiddlewareError, MonotonicGuard};
