//! The frozen commitment-state topology.
use crate::domain::CommitmentState;
use crate::error::DomainError;
use vstd::prelude::*;

verus! {

/// The destination a worker may explicitly select when resuming work.
#[derive(Clone, Copy, Debug, PartialEq, Eq, Structural)]
pub enum ResumeTarget {
    Ready,
    Working,
}

/// The legal edges of the commitment-state graph.
pub open spec fn legal_transition(from: CommitmentState, to: CommitmentState) -> bool {
    match (from, to) {
        (CommitmentState::Proposed, CommitmentState::Ready) => true,
        (CommitmentState::Proposed, CommitmentState::Cancelled) => true,
        (CommitmentState::Proposed, CommitmentState::Abandoned) => true,
        (CommitmentState::Ready, CommitmentState::Claimed) => true,
        (CommitmentState::Ready, CommitmentState::Cancelled) => true,
        (CommitmentState::Ready, CommitmentState::Abandoned) => true,
        (CommitmentState::Claimed, CommitmentState::Working) => true,
        (CommitmentState::Claimed, CommitmentState::Cancelled) => true,
        (CommitmentState::Claimed, CommitmentState::Abandoned) => true,
        (CommitmentState::Working, CommitmentState::Waiting(_)) => true,
        (CommitmentState::Working, CommitmentState::RecoveryPending) => true,
        (CommitmentState::Working, CommitmentState::CompletionProposed) => true,
        (CommitmentState::Working, CommitmentState::Cancelled) => true,
        (CommitmentState::Working, CommitmentState::Abandoned) => true,
        (CommitmentState::Waiting(_), CommitmentState::Ready) => true,
        (CommitmentState::Waiting(_), CommitmentState::Working) => true,
        (CommitmentState::Waiting(_), CommitmentState::Cancelled) => true,
        (CommitmentState::Waiting(_), CommitmentState::Abandoned) => true,
        (CommitmentState::RecoveryPending, CommitmentState::Ready) => true,
        (CommitmentState::RecoveryPending, CommitmentState::Waiting(_)) => true,
        (CommitmentState::RecoveryPending, CommitmentState::Cancelled) => true,
        (CommitmentState::RecoveryPending, CommitmentState::Abandoned) => true,
        (CommitmentState::CompletionProposed, CommitmentState::Completed) => true,
        (CommitmentState::CompletionProposed, CommitmentState::Cancelled) => true,
        (CommitmentState::CompletionProposed, CommitmentState::Abandoned) => true,
        _ => false,
    }
}

/// The error an illegal transition reports: terminal states report their immutability.
pub open spec fn transition_error(from: CommitmentState, to: CommitmentState) -> DomainError {
    if from.is_terminal() {
        DomainError::TerminalCommitmentImmutable { state: from }
    } else {
        DomainError::InvalidTransition { from, to }
    }
}

/// Validate the commitment-state topology without mutating state.
pub fn validate_transition(from: &CommitmentState, to: &CommitmentState) -> (r: Result<
    (),
    DomainError,
>)
    ensures
        r is Ok <==> legal_transition(*from, *to),
        r is Ok <==> documented_edge(*from, *to),
        r matches Err(e) ==> e == transition_error(*from, *to),
{
    proof {
        lemma_legal_transitions_are_the_documented_edges(*from, *to);
    }
    let legal = match (from, to) {
        (CommitmentState::Proposed, CommitmentState::Ready)
        | (CommitmentState::Proposed, CommitmentState::Cancelled)
        | (CommitmentState::Proposed, CommitmentState::Abandoned)
        | (CommitmentState::Ready, CommitmentState::Claimed)
        | (CommitmentState::Ready, CommitmentState::Cancelled)
        | (CommitmentState::Ready, CommitmentState::Abandoned)
        | (CommitmentState::Claimed, CommitmentState::Working)
        | (CommitmentState::Claimed, CommitmentState::Cancelled)
        | (CommitmentState::Claimed, CommitmentState::Abandoned)
        | (CommitmentState::Working, CommitmentState::Waiting(_))
        | (CommitmentState::Working, CommitmentState::RecoveryPending)
        | (CommitmentState::Working, CommitmentState::CompletionProposed)
        | (CommitmentState::Working, CommitmentState::Cancelled)
        | (CommitmentState::Working, CommitmentState::Abandoned)
        | (CommitmentState::Waiting(_), CommitmentState::Ready)
        | (CommitmentState::Waiting(_), CommitmentState::Working)
        | (CommitmentState::Waiting(_), CommitmentState::Cancelled)
        | (CommitmentState::Waiting(_), CommitmentState::Abandoned)
        | (CommitmentState::RecoveryPending, CommitmentState::Ready)
        | (CommitmentState::RecoveryPending, CommitmentState::Waiting(_))
        | (CommitmentState::RecoveryPending, CommitmentState::Cancelled)
        | (CommitmentState::RecoveryPending, CommitmentState::Abandoned)
        | (CommitmentState::CompletionProposed, CommitmentState::Completed)
        | (CommitmentState::CompletionProposed, CommitmentState::Cancelled)
        | (CommitmentState::CompletionProposed, CommitmentState::Abandoned) => true,
        _ => false,
    };

    if legal {
        Ok(())
    } else if from.is_terminal() {
        Err(DomainError::TerminalCommitmentImmutable { state: from.clone() })
    } else {
        Err(DomainError::InvalidTransition { from: from.clone(), to: to.clone() })
    }
}

/// The position of a state on the documented forward path
/// PROPOSED -> READY -> CLAIMED -> WORKING -> COMPLETION_PROPOSED -> COMPLETED,
/// or -1 for a state off that path.
pub open spec fn forward_path_position(s: CommitmentState) -> int {
    match s {
        CommitmentState::Proposed => 0,
        CommitmentState::Ready => 1,
        CommitmentState::Claimed => 2,
        CommitmentState::Working => 3,
        CommitmentState::CompletionProposed => 4,
        CommitmentState::Completed => 5,
        _ => -1,
    }
}

/// The documented lifecycle: each step forward along the path, the waits and recovery
/// out of working, the ways back out of a wait or recovery, and the explicit terminal
/// exits (cancel, abandon) from every state that has not ended.
pub open spec fn documented_edge(from: CommitmentState, to: CommitmentState) -> bool {
    ||| forward_path_position(from) >= 0 && forward_path_position(to) == forward_path_position(from)
        + 1
    ||| from is Working && (to is Waiting || to is RecoveryPending)
    ||| from is Waiting && (to is Ready || to is Working)
    ||| from is RecoveryPending && (to is Ready || to is Waiting)
    ||| !(from is Completed || from is Cancelled || from is Abandoned) && (to is Cancelled
        || to is Abandoned)
}

/// The legal transitions are exactly the documented lifecycle edges.
pub proof fn lemma_legal_transitions_are_the_documented_edges(
    from: CommitmentState,
    to: CommitmentState,
)
    ensures
        legal_transition(from, to) <==> documented_edge(from, to),
{
}

/// The whole forward path is walkable: a commitment can be made ready, claimed, worked,
/// proposed for completion and completed.
pub proof fn lemma_forward_path_is_legal()
    ensures
        legal_transition(CommitmentState::Proposed, CommitmentState::Ready),
        legal_transition(CommitmentState::Ready, CommitmentState::Claimed),
        legal_transition(CommitmentState::Claimed, CommitmentState::Working),
        legal_transition(CommitmentState::Working, CommitmentState::CompletionProposed),
        legal_transition(CommitmentState::CompletionProposed, CommitmentState::Completed),
{
}

/// No edge leaves a terminal state: completed, cancelled and abandoned commitments are immutable.
pub proof fn lemma_terminal_states_have_no_exit(from: CommitmentState, to: CommitmentState)
    requires
        from.is_terminal(),
    ensures
        !legal_transition(from, to),
        transition_error(from, to) == (DomainError::TerminalCommitmentImmutable { state: from }),
{
}

} // verus!
