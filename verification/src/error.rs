//! Errors shared by every planning function.

use vstd::prelude::*;

verus! {

/// Why a schedule could not be produced or was found inconsistent.
#[derive(Debug, Clone, Copy, PartialEq, Eq)]
pub enum VkFftError {
    /// The requested transform or device is outside what the scheduler covers.
    UnsupportedKernelPath(&'static str),
    /// A schedule is internally inconsistent.
    InvalidKernelIr(&'static str),
    /// A host-side size computation does not fit in `usize`.
    ArithmeticOverflow { operation: &'static str },
    /// A device limit is smaller than what the schedule needs.
    ResourceLimitExceeded { resource: &'static str, required: usize, available: usize },
    /// A plan was requested for no transforms at all.
    ZeroBatchCount,
    /// The scheduling family does not handle this precision.
    UnsupportedPrecision { backend: &'static str, precision: &'static str },
    /// A value does not fit the integer type that has to hold it.
    ValueOutOfRange { field: &'static str },
}

/// Result of a planning function.
pub type PlanResult<T> = Result<T, VkFftError>;

} // verus!
