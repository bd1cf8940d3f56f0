//! Error kinds surfaced by the plan lifecycle operations.

use vstd::prelude::*;

verus! {

/// Every failure aborts the entire invocation with no partial state change;
/// the caller inspects the kind and decides whether to retry.
#[derive(Clone, Copy, Debug, PartialEq, Eq, Structural)]
pub enum DcaError {
    /// The caller of a mutating operation is not the configured administrator.
    Unauthorized,
    /// The referenced plan is absent from the store.
    NotFound,
    /// The exchange cannot simulate or execute the conversion within the
    /// configured slippage bound.
    SwapUnavailable,
    /// The `convert` trigger did not come from the automation service's
    /// authorized manager for the plan.
    NotManagerConvert,
    /// The configured funding asset does not resolve to a native denomination.
    NotNativeAsset,
    /// A lookup against the automation service failed.
    ServiceUnavailable,
}

/// Failure of a read-only lookup against the automation service
/// (task manager address, task funding balance).
#[derive(Clone, Copy, Debug, PartialEq, Eq, Structural)]
pub enum TaskQueryError {
    /// The automation service could not answer the lookup.
    Unavailable,
    /// The automation service knows no task for the given plan id.
    UnknownTask,
}

/// The error kind that a failed task lookup surfaces as.
pub open spec fn query_error(e: TaskQueryError) -> DcaError {
    match e {
        TaskQueryError::Unavailable => DcaError::ServiceUnavailable,
        TaskQueryError::UnknownTask => DcaError::NotFound,
    }
}

} // verus!
