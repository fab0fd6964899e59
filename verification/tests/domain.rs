use resolve::state_machine::validate_transition;
use resolve::{
    AttentionId, AttentionItem, AttentionState, ClaimEpoch, Commitment, CommitmentId,
    CommitmentState, DomainError, GoalId, GoalRevision, GoalSpec, GoalState, MonotonicInstant,
    ResumeTarget, TethersActionRef, TethersOutcome, Timestamp, WaitingReason, WorkerId,
};

fn goal_id() -> GoalId {
    GoalId::try_new("goal-1").expect("test identifier is valid")
}

fn commitment() -> Commitment {
    Commitment::new(
        CommitmentId::try_new("commitment-1").expect("test identifier is valid"),
        goal_id(),
        None,
        "implement the bounded change",
        Vec::new(),
        Vec::new(),
    )
    .expect("test commitment is valid")
}

fn worker(value: &str) -> WorkerId {
    WorkerId::try_new(value).expect("test identifier is valid")
}

#[test]
fn terminal_commitments_are_immutable() {
    for terminal in [
        CommitmentState::Completed,
        CommitmentState::Cancelled,
        CommitmentState::Abandoned,
    ] {
        for destination in [
            CommitmentState::Proposed,
            CommitmentState::Ready,
            CommitmentState::Completed,
        ] {
            let error = validate_transition(&terminal, &destination)
                .expect_err("terminal states must not transition");
            assert_eq!(
                error,
                DomainError::TerminalCommitmentImmutable {
                    state: terminal.clone(),
                }
            );
        }
    }
}

#[test]
fn illegal_transition_is_typed_and_non_panicking() {
    let mut commitment = commitment();
    let error = commitment
        .start(&worker("worker-1"), ClaimEpoch::initial())
        .expect_err("unclaimed work cannot start");

    assert_eq!(error, DomainError::NotClaimed);
    assert_eq!(commitment.state(), &CommitmentState::Proposed);
}

#[test]
fn claim_epochs_are_typed_monotonic_and_stale_epochs_cannot_mutate() {
    let mut commitment = commitment();
    commitment.activate().expect("proposed can become ready");
    let first = commitment
        .claim_for(worker("worker-1"), MonotonicInstant::from_ticks(10))
        .expect("first claim succeeds");
    assert_eq!(first.worker_id(), &worker("worker-1"));
    assert_eq!(first.epoch(), ClaimEpoch::initial());
    assert_eq!(first.last_heartbeat(), MonotonicInstant::from_ticks(10));
    commitment
        .start(first.worker_id(), first.epoch())
        .expect("current claim can start");
    commitment
        .wait(
            first.worker_id(),
            first.epoch(),
            WaitingReason::External("worker needs input".to_owned()),
        )
        .expect("current claim can wait");
    commitment
        .resume(first.worker_id(), first.epoch(), ResumeTarget::Ready)
        .expect("current claim can release back to ready");

    let second = commitment
        .claim_for(worker("worker-2"), MonotonicInstant::from_ticks(20))
        .expect("second claim succeeds");
    assert_eq!(second.epoch().value(), first.epoch().value() + 1);

    let error = commitment
        .start(first.worker_id(), first.epoch())
        .expect_err("old worker epoch must be fenced");
    assert_eq!(
        error,
        DomainError::ClaimOwnerMismatch {
            expected: worker("worker-2"),
            actual: worker("worker-1"),
        }
    );

    let error = commitment
        .start(second.worker_id(), first.epoch())
        .expect_err("old epoch must not mutate current worker claim");
    assert_eq!(
        error,
        DomainError::StaleEpoch {
            expected: second.epoch(),
            actual: first.epoch(),
        }
    );
}

#[test]
fn the_epoch_high_water_mark_follows_every_claim_and_never_falls() {
    let mut commitment = commitment();
    assert_eq!(commitment.last_claim_epoch(), None);
    commitment.activate().expect("proposed can become ready");
    assert_eq!(commitment.last_claim_epoch(), None);
    let mut marks = Vec::new();
    for round in 0..3u64 {
        let lease = commitment
            .claim_for(worker("worker-1"), MonotonicInstant::from_ticks(round))
            .expect("ready commitment can be claimed");
        assert_eq!(lease.epoch().value(), round + 1);
        assert_eq!(commitment.last_claim_epoch(), Some(lease.epoch()));
        assert_eq!(commitment.claim().map(|c| c.epoch()), Some(lease.epoch()));
        commitment
            .claim_for(worker("worker-2"), MonotonicInstant::from_ticks(round))
            .expect_err("a held claim cannot be claimed again");
        assert_eq!(commitment.last_claim_epoch(), Some(lease.epoch()));
        commitment.start(lease.worker_id(), lease.epoch()).expect("claim can start");
        commitment
            .wait(lease.worker_id(), lease.epoch(), WaitingReason::External("input".to_owned()))
            .expect("claim can wait");
        commitment
            .resume(lease.worker_id(), lease.epoch(), ResumeTarget::Ready)
            .expect("claim can release");
        assert!(commitment.claim().is_none());
        assert_eq!(commitment.last_claim_epoch(), Some(lease.epoch()));
        marks.push(commitment.last_claim_epoch().expect("mark is set").value());
    }
    assert_eq!(marks, vec![1, 2, 3]);
    commitment.cancel().expect("ready can be cancelled");
    assert_eq!(commitment.last_claim_epoch().map(|e| e.value()), Some(3));
}

#[test]
fn restored_active_claim_must_match_epoch_high_water_exactly() {
    let commitment = commitment();
    let claim = (
        worker("worker-1"),
        ClaimEpoch::initial(),
        MonotonicInstant::from_ticks(10),
    );
    let restore = |claim: Option<(WorkerId, ClaimEpoch, MonotonicInstant)>, high_water| {
        Commitment::restore(
            commitment.commitment_id().clone(),
            commitment.goal_id().clone(),
            commitment.parent_id().cloned(),
            commitment.description(),
            CommitmentState::Claimed,
            commitment.prerequisites().to_vec(),
            commitment.acceptance_refs().to_vec(),
            claim,
            None,
            high_water,
        )
    };

    assert!(restore(Some(claim.clone()), Some(ClaimEpoch::initial())).is_ok());
    assert!(matches!(
        restore(Some(claim.clone()), None),
        Err(DomainError::InvalidRestoredState { .. })
    ));
    assert!(matches!(
        restore(
            Some(claim.clone()),
            Some(ClaimEpoch::try_from_raw(2).expect("epoch is valid")),
        ),
        Err(DomainError::InvalidRestoredState { .. })
    ));
    assert!(matches!(
        restore(
            Some((
                claim.0,
                ClaimEpoch::try_from_raw(2).expect("epoch is valid"),
                claim.2,
            )),
            Some(ClaimEpoch::initial())
        ),
        Err(DomainError::InvalidRestoredState { .. })
    ));
}

#[test]
fn waiting_reasons_and_uncertain_outcomes_remain_distinct() {
    let prerequisite = WaitingReason::Prerequisite(
        CommitmentId::try_new("commitment-2").expect("test identifier is valid"),
    );
    let uncertain = WaitingReason::UncertainAction(
        TethersActionRef::try_new("action-1").expect("test identifier is valid"),
    );
    assert_ne!(prerequisite, uncertain);
    assert!(!prerequisite.is_uncertain_action());
    assert!(uncertain.is_uncertain_action());

    let outcome = TethersOutcome::Uncertain {
        action_ref: TethersActionRef::try_new("action-1").expect("test identifier is valid"),
    };
    assert!(outcome.is_uncertain());
    assert!(!matches!(outcome, TethersOutcome::Failed { .. }));
}

#[test]
fn uncertain_waiting_requires_explicit_recovery() {
    let mut commitment = commitment();
    commitment.activate().expect("commitment activates");
    let claim = commitment
        .claim_for(worker("worker-1"), MonotonicInstant::from_ticks(1))
        .expect("claim succeeds");
    commitment
        .start(claim.worker_id(), claim.epoch())
        .expect("claim starts work");
    commitment
        .wait(
            claim.worker_id(),
            claim.epoch(),
            WaitingReason::UncertainAction(
                TethersActionRef::try_new("action-1").expect("action is valid"),
            ),
        )
        .expect("uncertain waiting is representable");
    assert!(commitment.claim().is_none());

    let error = commitment
        .resume(claim.worker_id(), claim.epoch(), ResumeTarget::Working)
        .expect_err("uncertain work cannot use normal resume");
    assert_eq!(
        error,
        DomainError::RecoveryRequired {
            action_ref: TethersActionRef::try_new("action-1").expect("action is valid"),
        }
    );
}

#[test]
fn goal_revisions_are_append_only_values() {
    let original = GoalSpec::new(
        goal_id(),
        GoalRevision::initial(),
        "original goal",
        GoalState::Active,
        Timestamp::from_unix_seconds(0),
    )
    .expect("test goal is valid");
    let next_revision = original.revision().next().expect("revision can advance");
    let revised = original
        .revised(next_revision, "revised goal")
        .expect("exact next revision is accepted");

    assert_eq!(original.revision(), GoalRevision::initial());
    assert_eq!(original.description(), "original goal");
    assert_eq!(revised.revision(), next_revision);
    assert_eq!(revised.description(), "revised goal");

    let error = original
        .revised(
            next_revision.next().expect("test revision can advance"),
            "skip",
        )
        .expect_err("revision gaps are not append-only");
    assert!(matches!(error, DomainError::InvalidGoalRevision { .. }));
}

#[test]
fn malformed_identifiers_and_descriptions_return_errors() {
    assert_eq!(
        GoalId::try_new("   ").expect_err("blank identifier is malformed"),
        DomainError::InvalidIdentifier { kind: "goal" }
    );
    assert_eq!(
        GoalSpec::new(
            goal_id(),
            GoalRevision::initial(),
            "  ",
            GoalState::Active,
            Timestamp::from_unix_seconds(0),
        )
        .expect_err("blank goal description is malformed"),
        DomainError::EmptyDescription
    );
}

#[test]
fn attention_items_use_a_validated_constructor_and_read_only_values() {
    let attention_id = AttentionId::try_new("attention-1").expect("test identifier is valid");
    let item = AttentionItem::new(attention_id.clone(), None, "human input required")
        .expect("test attention item is valid");

    assert_eq!(item.attention_id(), &attention_id);
    assert_eq!(item.commitment_id(), None);
    assert_eq!(item.description(), "human input required");
    assert_eq!(item.state(), AttentionState::Open);
    assert_eq!(
        AttentionItem::new(attention_id, None, "  ")
            .expect_err("blank attention description is malformed"),
        DomainError::EmptyDescription
    );
}
