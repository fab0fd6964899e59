//! Typed errors raised when a request would violate a Resolve domain invariant.
use crate::domain::CommitmentState;
use crate::ids::{TethersActionRef, WorkerId};
use crate::describe::{describe_state, state_description};
use crate::text::{decimal_digits, decimal_u64, join_text};
use crate::values::{ClaimEpoch, GoalRevision};
use vstd::prelude::*;

verus! {

/// Errors raised when a domain request would violate a Resolve invariant.
#[derive(Clone, Debug, PartialEq, Eq)]
pub enum DomainError {
    InvalidIdentifier { kind: &'static str },
    EmptyDescription,
    InvalidGoalRevision { expected: GoalRevision, actual: GoalRevision },
    InvalidTransition { from: CommitmentState, to: CommitmentState },
    TerminalCommitmentImmutable { state: CommitmentState },
    CommitmentAlreadyClaimed { worker_id: WorkerId, epoch: ClaimEpoch },
    NotClaimed,
    ClaimOwnerMismatch { expected: WorkerId, actual: WorkerId },
    StaleEpoch { expected: ClaimEpoch, actual: ClaimEpoch },
    EpochExhausted,
    RevisionExhausted,
    InvalidNumericValue { kind: &'static str },
    InvalidRestoredState { reason: &'static str },
    RecoveryRequired { action_ref: TethersActionRef },
    InvalidDuration,
    TimeOverflow,
    InvalidLeaseDeadline,
    EmptyScopeSet,
    InvalidStructuralProposal { reason: &'static str },
    DependencyCycle,
}

/// The text that describes an error.
pub open spec fn domain_error_text(e: DomainError) -> Seq<char> {
    match e {
        DomainError::InvalidIdentifier { kind } => kind@ + " identifier must not be empty"@,
        DomainError::EmptyDescription => "description must not be empty"@,
        DomainError::InvalidGoalRevision { expected, actual } => "goal revision must be "@
            + decimal_digits(expected@ as nat) + ", received "@ + decimal_digits(actual@ as nat),
        DomainError::CommitmentAlreadyClaimed { worker_id, epoch } => "commitment is already claimed by "@
            + worker_id@ + " at epoch "@ + decimal_digits(epoch@ as nat),
        DomainError::NotClaimed => "commitment has no active claim"@,
        DomainError::ClaimOwnerMismatch { expected, actual } => "claim belongs to "@ + expected@
            + ", not requesting worker "@ + actual@,
        DomainError::StaleEpoch { expected, actual } => "claim epoch "@ + decimal_digits(
            actual@ as nat,
        ) + " is stale; current epoch is "@ + decimal_digits(expected@ as nat),
        DomainError::EpochExhausted => "claim epoch space is exhausted"@,
        DomainError::RevisionExhausted => "goal revision space is exhausted"@,
        DomainError::InvalidNumericValue { kind } => kind@ + " is out of range"@,
        DomainError::InvalidRestoredState { reason } => "restored commitment is inconsistent: "@
            + reason@,
        DomainError::RecoveryRequired { action_ref } => "action "@ + action_ref@
            + " must be recovered explicitly"@,
        DomainError::InvalidDuration => "duration must be positive"@,
        DomainError::TimeOverflow => "monotonic time overflowed"@,
        DomainError::InvalidLeaseDeadline => "claim lease deadline has already passed"@,
        DomainError::EmptyScopeSet => "scope set must not be empty"@,
        DomainError::InvalidStructuralProposal { reason } => "invalid structural proposal: "@
            + reason@,
        DomainError::DependencyCycle => "commitment dependencies form a cycle"@,
        DomainError::InvalidTransition { from, to } => "invalid commitment transition from "@
            + state_description(from@) + " to "@ + state_description(to@),
        DomainError::TerminalCommitmentImmutable { state } => "terminal commitment state "@
            + state_description(state@) + " is immutable"@,
    }
}

impl DomainError {
    /// The error's description, as its `Display` writes it.
    pub fn message(&self) -> (r: String)
        ensures
            r@ == domain_error_text(*self),
    {
        match self {
            DomainError::InvalidIdentifier { kind } => join_text(kind, " identifier must not be empty"),
            DomainError::EmptyDescription => "description must not be empty".to_owned(),
            DomainError::InvalidGoalRevision { expected, actual } => {
                let text = join_text("goal revision must be ", decimal_u64(expected.value()).as_str());
                let text = join_text(text.as_str(), ", received ");
                join_text(text.as_str(), decimal_u64(actual.value()).as_str())
            },
            DomainError::InvalidTransition { from, to } => {
                let text = join_text("invalid commitment transition from ", describe_state(from).as_str());
                let text = join_text(text.as_str(), " to ");
                join_text(text.as_str(), describe_state(to).as_str())
            },
            DomainError::TerminalCommitmentImmutable { state } => {
                let text = join_text("terminal commitment state ", describe_state(state).as_str());
                join_text(text.as_str(), " is immutable")
            },
            DomainError::CommitmentAlreadyClaimed { worker_id, epoch } => {
                let text = join_text("commitment is already claimed by ", worker_id.as_str());
                let text = join_text(text.as_str(), " at epoch ");
                join_text(text.as_str(), decimal_u64(epoch.value()).as_str())
            },
            DomainError::NotClaimed => "commitment has no active claim".to_owned(),
            DomainError::ClaimOwnerMismatch { expected, actual } => {
                let text = join_text("claim belongs to ", expected.as_str());
                let text = join_text(text.as_str(), ", not requesting worker ");
                join_text(text.as_str(), actual.as_str())
            },
            DomainError::StaleEpoch { expected, actual } => {
                let text = join_text("claim epoch ", decimal_u64(actual.value()).as_str());
                let text = join_text(text.as_str(), " is stale; current epoch is ");
                join_text(text.as_str(), decimal_u64(expected.value()).as_str())
            },
            DomainError::EpochExhausted => "claim epoch space is exhausted".to_owned(),
            DomainError::RevisionExhausted => "goal revision space is exhausted".to_owned(),
            DomainError::InvalidNumericValue { kind } => join_text(kind, " is out of range"),
            DomainError::InvalidRestoredState { reason } => join_text(
                "restored commitment is inconsistent: ",
                reason,
            ),
            DomainError::RecoveryRequired { action_ref } => {
                let text = join_text("action ", action_ref.as_str());
                join_text(text.as_str(), " must be recovered explicitly")
            },
            DomainError::InvalidDuration => "duration must be positive".to_owned(),
            DomainError::TimeOverflow => "monotonic time overflowed".to_owned(),
            DomainError::InvalidLeaseDeadline => "claim lease deadline has already passed".to_owned(),
            DomainError::EmptyScopeSet => "scope set must not be empty".to_owned(),
            DomainError::InvalidStructuralProposal { reason } => join_text(
                "invalid structural proposal: ",
                reason,
            ),
            DomainError::DependencyCycle => "commitment dependencies form a cycle".to_owned(),
        }
    }
}

} // verus!
