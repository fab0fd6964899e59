//! Resolve: goals, claim-fenced commitments and execution guards, with the rules
//! by which the store reads them back and decides every change it persists.
pub mod codec;
pub mod describe;
pub mod domain;
pub mod error;
pub mod events;
pub mod guards;
pub mod ids;
pub mod planning;
pub mod records;
pub mod rules;
pub mod service;
pub mod state_machine;
pub mod store_error;
pub mod text;
pub mod values;

pub use domain::{
    AttentionItem, AttentionState, ClaimLease, Commitment, CommitmentState, GoalSpec, GoalState,
    Prerequisite, StructuralChange, TethersOutcome, WaitingReason, WorkEvent,
};
pub use error::DomainError;
pub use guards::{ExecutionGuard, GuardState, ScopeSet};
pub use ids::{
    AcceptanceRef, AttentionId, CommitmentId, GoalId, GuardId, HumanDecisionRef, ScopeKey,
    TethersActionRef, TethersContractRef, WorkerId,
};
pub use planning::{NewCommitment, StructuralProposal};
pub use records::{
    AttentionRecord, ClaimRecord, CommitmentRecord, EventRecord, GoalRecord, GuardAdmission,
    GuardIssueRequest, GuardRecord,
};
pub use service::{GuardAdmissionResponse, GuardRejectionReason, OutcomeDeliveryResponse};
pub use state_machine::ResumeTarget;
pub use store_error::StoreError;
pub use values::{
    BootGeneration, ClaimEpoch, GoalRevision, MonotonicDuration, MonotonicInstant, Timestamp,
};
