//! Bounded shared subscription to one explicit shutdown lifecycle.

pub mod barrier;
pub mod error;

pub use barrier::{
    RequestFailure, RequestSuccess, ShutdownPhase, ShutdownState, SubscribeStep,
};
pub use error::ShutdownSubscribeError;
