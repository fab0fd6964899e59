use resolve::codec::StoredWaitingReason;
use resolve::events::{
    encode_event_payload, event_commitment_id, event_type, validate_attention_event,
    validate_commitment_event, validate_goal_event, StoredEventPayload,
};
use resolve::{
    AttentionId, ClaimEpoch, CommitmentId, GoalId, GoalRevision, GuardId, StoreError,
    TethersActionRef, TethersOutcome, WaitingReason, WorkEvent, WorkerId,
};

fn commitment(value: &str) -> CommitmentId {
    CommitmentId::try_new(value).expect("valid")
}

fn all_events() -> Vec<(WorkEvent, &'static str, Option<&'static str>)> {
    let c = || commitment("c-1");
    let g = || GoalId::try_new("g-1").expect("valid");
    let w = || WorkerId::try_new("w-1").expect("valid");
    let guard = || GuardId::try_new("guard-1").expect("valid");
    let a = || TethersActionRef::try_new("a-1").expect("valid");
    let attention = || AttentionId::try_new("att-1").expect("valid");
    vec![
        (WorkEvent::GoalCreated { goal_id: g(), revision: GoalRevision::initial() }, "goal_created", None),
        (WorkEvent::GoalRevised { goal_id: g(), revision: GoalRevision::initial() }, "goal_revised", None),
        (WorkEvent::CommitmentCreated { commitment_id: c(), goal_id: g() }, "commitment_created", Some("c-1")),
        (WorkEvent::CommitmentActivated { commitment_id: c() }, "commitment_activated", Some("c-1")),
        (WorkEvent::CommitmentClaimed { commitment_id: c(), worker_id: w(), epoch: ClaimEpoch::initial() }, "commitment_claimed", Some("c-1")),
        (WorkEvent::CommitmentStarted { commitment_id: c() }, "commitment_started", Some("c-1")),
        (WorkEvent::CommitmentWaiting { commitment_id: c(), reason: WaitingReason::External("x".to_owned()) }, "commitment_waiting", Some("c-1")),
        (WorkEvent::CommitmentRecoveryPending { commitment_id: c() }, "commitment_recovery_pending", Some("c-1")),
        (WorkEvent::CommitmentCompletionProposed { commitment_id: c() }, "commitment_completion_proposed", Some("c-1")),
        (WorkEvent::CommitmentCompleted { commitment_id: c() }, "commitment_completed", Some("c-1")),
        (WorkEvent::CommitmentCancelled { commitment_id: c() }, "commitment_cancelled", Some("c-1")),
        (WorkEvent::CommitmentAbandoned { commitment_id: c() }, "commitment_abandoned", Some("c-1")),
        (WorkEvent::HeartbeatAccepted { commitment_id: c(), worker_id: w(), epoch: ClaimEpoch::initial() }, "heartbeat_accepted", Some("c-1")),
        (WorkEvent::LeaseExpired { commitment_id: c(), worker_id: w(), epoch: ClaimEpoch::initial() }, "lease_expired", Some("c-1")),
        (WorkEvent::GuardIssued { guard_id: guard(), commitment_id: c(), claim_epoch: ClaimEpoch::initial() }, "guard_issued", Some("c-1")),
        (WorkEvent::GuardAdmitted { guard_id: guard(), commitment_id: c(), action_ref: a() }, "guard_admitted", Some("c-1")),
        (WorkEvent::GuardInvalidated { guard_id: guard() }, "guard_invalidated", None),
        (WorkEvent::GuardReservationExpired { guard_id: guard() }, "guard_reservation_expired", None),
        (WorkEvent::TethersOutcomeRecorded { outcome: TethersOutcome::Failed { action_ref: a() } }, "tethers_outcome_recorded", None),
        (WorkEvent::RecoveryCompleted { commitment_id: c(), action_ref: a() }, "recovery_completed", Some("c-1")),
        (WorkEvent::RecoveryReleased { commitment_id: c() }, "recovery_released", Some("c-1")),
        (WorkEvent::StructuralProposalApplied { target: c() }, "structural_proposal_applied", None),
        (WorkEvent::AttentionRaised { attention_id: attention(), commitment_id: Some(c()) }, "attention_raised", Some("c-1")),
        (WorkEvent::AttentionRaised { attention_id: attention(), commitment_id: None }, "attention_raised", None),
        (WorkEvent::AttentionCleared { attention_id: attention() }, "attention_cleared", None),
    ]
}

#[test]
fn every_event_has_its_stable_type_and_commitment_column() {
    let mut names = std::collections::BTreeSet::new();
    for (event, name, commitment_id) in all_events() {
        assert_eq!(event_type(&event), name);
        assert_eq!(event_commitment_id(&event).map(|id| id.as_str()), commitment_id);
        names.insert(name);
    }
    assert_eq!(names.len(), 24);
    let stable = [
        "goal_created",
        "goal_revised",
        "commitment_created",
        "commitment_activated",
        "commitment_claimed",
        "commitment_started",
        "commitment_waiting",
        "commitment_recovery_pending",
        "commitment_completion_proposed",
        "commitment_completed",
        "commitment_cancelled",
        "commitment_abandoned",
        "heartbeat_accepted",
        "lease_expired",
        "guard_issued",
        "guard_admitted",
        "guard_invalidated",
        "guard_reservation_expired",
        "tethers_outcome_recorded",
        "recovery_completed",
        "recovery_released",
        "structural_proposal_applied",
        "attention_raised",
        "attention_cleared",
    ];
    for (event, _, _) in all_events() {
        let name = event_type(&event);
        assert!(!name.is_empty());
        assert!(stable.contains(&name), "{name} is not a stable event type");
    }
}

#[test]
fn payloads_carry_the_event_fields_as_text() {
    let event = WorkEvent::CommitmentClaimed {
        commitment_id: commitment("c-9"),
        worker_id: WorkerId::try_new("w-9").expect("valid"),
        epoch: ClaimEpoch::try_from_raw(4).expect("valid"),
    };
    match encode_event_payload(&event) {
        StoredEventPayload::CommitmentClaimed { commitment_id, worker_id, epoch } => {
            assert_eq!(commitment_id, "c-9");
            assert_eq!(worker_id, "w-9");
            assert_eq!(epoch, 4);
        }
        _ => panic!("wrong payload variant"),
    }
    let waiting = WorkEvent::CommitmentWaiting {
        commitment_id: commitment("c-1"),
        reason: WaitingReason::UncertainAction(TethersActionRef::try_new("A1").expect("valid")),
    };
    match encode_event_payload(&waiting) {
        StoredEventPayload::CommitmentWaiting {
            reason: StoredWaitingReason::UncertainAction(action),
            ..
        } => assert_eq!(action, "A1"),
        _ => panic!("wrong payload variant"),
    }
    let released = WorkEvent::RecoveryReleased { commitment_id: commitment("c-2") };
    assert!(matches!(
        encode_event_payload(&released),
        StoredEventPayload::RecoveryReleased { commitment_id } if commitment_id == "c-2"
    ));
    let raised = WorkEvent::AttentionRaised {
        attention_id: AttentionId::try_new("att").expect("valid"),
        commitment_id: None,
    };
    assert!(matches!(
        encode_event_payload(&raised),
        StoredEventPayload::AttentionRaised { attention_id, commitment_id: None } if attention_id == "att"
    ));
}

#[test]
fn mutations_require_the_event_that_records_them() {
    let goal = GoalId::try_new("g-1").expect("valid");
    let other_goal = GoalId::try_new("g-2").expect("valid");
    let created = WorkEvent::GoalCreated { goal_id: goal.clone(), revision: GoalRevision::initial() };
    assert!(validate_goal_event(&created, &goal, "goal creation").is_ok());
    match validate_goal_event(&created, &other_goal, "goal revision") {
        Err(StoreError::InvalidMutation(message)) => assert_eq!(
            message,
            "goal revision requires a matching GoalCreated or GoalRevised event"
        ),
        other => panic!("unexpected result: {other:?}"),
    }

    let activated = WorkEvent::CommitmentActivated { commitment_id: commitment("c-1") };
    assert!(validate_commitment_event(&activated, &commitment("c-1"), "commitment change").is_ok());
    match validate_commitment_event(&activated, &commitment("c-2"), "commitment change") {
        Err(StoreError::InvalidMutation(message)) => {
            assert_eq!(message, "commitment change requires an event for commitment c-2")
        }
        other => panic!("unexpected result: {other:?}"),
    }
    assert!(validate_commitment_event(&created, &commitment("c-1"), "commitment creation").is_err());

    let attention = AttentionId::try_new("att-1").expect("valid");
    let raised = WorkEvent::AttentionRaised { attention_id: attention.clone(), commitment_id: None };
    assert!(validate_attention_event(&raised, &attention).is_ok());
    let cleared = WorkEvent::AttentionCleared { attention_id: attention.clone() };
    match validate_attention_event(&cleared, &attention) {
        Err(StoreError::InvalidMutation(message)) => {
            assert_eq!(message, "attention mutation requires a matching attention event")
        }
        other => panic!("unexpected result: {other:?}"),
    }
}
