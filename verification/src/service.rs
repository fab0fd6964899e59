//! The typed answers of the service boundary.
use vstd::prelude::*;

verus! {

/// Closed vocabulary for guard admission rejections.
#[derive(Clone, Copy, Debug, PartialEq, Eq, Structural)]
pub enum GuardRejectionReason {
    GuardNotFound,
    GuardRevoked,
    GuardAlreadyBound,
    GuardExpired,
    TaskNotActive,
    OwnershipChanged,
    FenceChanged,
    ActionMismatch,
    PreparationMismatch,
    ScopeKeysMismatch,
    StateUnavailable,
    InternalIntegrity,
}

/// Typed response for guard admission operations.
#[derive(Clone, Copy, Debug, PartialEq, Eq, Structural)]
pub enum GuardAdmissionResponse {
    Admitted,
    AlreadyAdmitted,
    Rejected { reason: GuardRejectionReason },
}

/// Typed response for outcome delivery operations.
#[derive(Clone, Copy, Debug, PartialEq, Eq, Structural)]
pub enum OutcomeDeliveryResponse {
    Recorded,
    AlreadyRecorded,
    Conflict,
}

} // verus!
