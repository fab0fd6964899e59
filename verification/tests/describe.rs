use resolve::describe::{describe_guard_state, describe_outcome, describe_reason, describe_state};
use resolve::{
    CommitmentId, CommitmentState, DomainError, GuardState, HumanDecisionRef, StoreError,
    TethersActionRef, TethersContractRef, TethersOutcome, WaitingReason,
};

fn action(value: &str) -> TethersActionRef {
    TethersActionRef::try_new(value).expect("valid")
}

fn reasons() -> Vec<WaitingReason> {
    vec![
        WaitingReason::Prerequisite(CommitmentId::try_new("c \"1\"").expect("valid")),
        WaitingReason::Authority(action("a\\1")),
        WaitingReason::HumanDecision(HumanDecisionRef::try_new("d\n1").expect("valid")),
        WaitingReason::Verification(TethersContractRef::try_new("k").expect("valid")),
        WaitingReason::UncertainAction(action("u")),
        WaitingReason::External("needs \u{7f} input".to_owned()),
    ]
}

#[test]
fn descriptions_match_the_derived_debug_text() {
    for reason in reasons() {
        assert_eq!(describe_reason(&reason), format!("{reason:?}"));
        let state = CommitmentState::Waiting(reason);
        assert_eq!(describe_state(&state), format!("{state:?}"));
    }
    for state in [
        CommitmentState::Proposed,
        CommitmentState::Ready,
        CommitmentState::Claimed,
        CommitmentState::Working,
        CommitmentState::RecoveryPending,
        CommitmentState::CompletionProposed,
        CommitmentState::Completed,
        CommitmentState::Cancelled,
        CommitmentState::Abandoned,
    ] {
        assert_eq!(describe_state(&state), format!("{state:?}"));
    }
    let outcomes = vec![
        TethersOutcome::Succeeded { action_ref: action("s") },
        TethersOutcome::Failed { action_ref: action("f") },
        TethersOutcome::Uncertain { action_ref: action("u") },
    ];
    for outcome in &outcomes {
        assert_eq!(describe_outcome(outcome), format!("{outcome:?}"));
    }
    let guards = vec![
        GuardState::Issued,
        GuardState::Admitted { action_ref: action("a") },
        GuardState::Resolved {
            action_ref: action("a"),
            outcome: TethersOutcome::Failed { action_ref: action("a") },
        },
        GuardState::Uncertain { action_ref: action("a") },
        GuardState::Invalidated,
    ];
    for guard in &guards {
        assert_eq!(describe_guard_state(guard), format!("{guard:?}"));
    }
}

#[test]
fn transition_errors_name_both_states() {
    let error = DomainError::InvalidTransition {
        from: CommitmentState::Ready,
        to: CommitmentState::Completed,
    };
    assert_eq!(error.message(), "invalid commitment transition from Ready to Completed");
    let error = DomainError::TerminalCommitmentImmutable { state: CommitmentState::Cancelled };
    assert_eq!(error.message(), "terminal commitment state Cancelled is immutable");
    assert_eq!(
        StoreError::Domain(error).message(),
        "domain error: terminal commitment state Cancelled is immutable"
    );
}
