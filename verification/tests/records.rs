use resolve::codec::{StoredCommitmentState, StoredTethersOutcome, StoredWaitingReason};
use resolve::records::{
    decode_commitment_state, decode_guard_row, decode_prerequisites, parse_acceptance_refs,
    CommitmentRow, RawGuardColumns,
};
use resolve::{
    AttentionRecord, AttentionState, ClaimRecord, CommitmentRecord, CommitmentState, DomainError,
    EventRecord, GoalRecord, GoalState, GuardRecord, GuardState, Prerequisite, ScopeKey,
    ScopeSet, StoreError, TethersActionRef, WaitingReason,
};

fn is_persisted(error: &StoreError) -> bool {
    matches!(error, StoreError::InvalidPersistedData(_))
}

#[test]
fn goal_rows_are_validated_in_order() {
    let record = GoalRecord::from_row(
        "goal-1".to_owned(),
        3,
        "ship it".to_owned(),
        "completed".to_owned(),
        100,
        7,
    )
    .expect("row is valid");
    assert_eq!(record.goal_id().as_str(), "goal-1");
    assert_eq!(record.revision(), 3);
    assert_eq!(record.description(), "ship it");
    assert_eq!(record.state(), &GoalState::Completed);
    assert_eq!(record.created_at(), 100);
    assert_eq!(record.state_version(), 7);

    let blank = GoalRecord::from_row(" ".to_owned(), 0, String::new(), "bad".to_owned(), 0, 1);
    match blank {
        Err(StoreError::InvalidPersistedData(message)) => {
            assert_eq!(message, "invalid goal identifier \" \"")
        }
        other => panic!("unexpected result: {other:?}"),
    }
    match GoalRecord::from_row("g".to_owned(), 0, String::new(), "bad".to_owned(), 0, 1) {
        Err(StoreError::InvalidPersistedData(message)) => {
            assert_eq!(message, "goal revision must be positive, received 0")
        }
        other => panic!("unexpected result: {other:?}"),
    }
    match GoalRecord::from_row("g".to_owned(), 1, String::new(), "bad".to_owned(), 0, 1) {
        Err(StoreError::InvalidPersistedData(message)) => {
            assert_eq!(message, "unknown goal state \"bad\"")
        }
        other => panic!("unexpected result: {other:?}"),
    }
}

#[test]
fn claim_rows_reject_non_positive_epochs_and_negative_heartbeats() {
    let claim = ClaimRecord::from_row("worker-1".to_owned(), 2, 44).expect("valid");
    assert_eq!(claim.worker_id().as_str(), "worker-1");
    assert_eq!(claim.epoch(), 2);
    assert_eq!(claim.last_heartbeat(), 44);
    assert!(ClaimRecord::from_row("worker-1".to_owned(), 0, 44).is_err());
    match ClaimRecord::from_row("worker-1".to_owned(), 1, -5) {
        Err(StoreError::InvalidPersistedData(message)) => {
            assert_eq!(message, "claim heartbeat must not be negative, received -5")
        }
        other => panic!("unexpected result: {other:?}"),
    }
}

fn commitment_row() -> CommitmentRow {
    CommitmentRow {
        commitment_id: "commitment-1".to_owned(),
        goal_id: "goal-1".to_owned(),
        parent_id: Some("parent".to_owned()),
        description: "do the work".to_owned(),
        state: Ok(StoredCommitmentState::Waiting(StoredWaitingReason::HumanDecision(
            "decision-1".to_owned(),
        ))),
        outstanding_action: Some("A1".to_owned()),
        state_version: 5,
        claim: Some(("worker-1".to_owned(), 3, 17)),
        prerequisites: vec![
            ("commitment".to_owned(), "dep".to_owned(), Some("dep".to_owned())),
            ("tethers_verification".to_owned(), "contract-1".to_owned(), None),
        ],
        acceptance_refs: vec!["accept-1".to_owned(), "accept-2".to_owned()],
    }
}

#[test]
fn commitment_rows_rebuild_the_full_projection() {
    let record = CommitmentRecord::from_row(commitment_row()).expect("rows are valid");
    assert_eq!(record.clone(), record);
    assert_eq!(record.commitment_id().as_str(), "commitment-1");
    assert_eq!(record.goal_id().as_str(), "goal-1");
    assert_eq!(record.parent_id().map(|id| id.as_str()), Some("parent"));
    assert_eq!(record.description(), "do the work");
    assert!(matches!(
        record.state(),
        CommitmentState::Waiting(WaitingReason::HumanDecision(id)) if id.as_str() == "decision-1"
    ));
    assert_eq!(record.prerequisites().len(), 2);
    assert!(matches!(&record.prerequisites()[0], Prerequisite::Commitment(id) if id.as_str() == "dep"));
    assert!(matches!(
        &record.prerequisites()[1],
        Prerequisite::TethersVerification(id) if id.as_str() == "contract-1"
    ));
    let refs: Vec<&str> = record.acceptance_refs().iter().map(|r| r.as_str()).collect();
    assert_eq!(refs, vec!["accept-1", "accept-2"]);
    let claim = record.claim().expect("claim is present");
    assert_eq!((claim.worker_id().as_str(), claim.epoch(), claim.last_heartbeat()), ("worker-1", 3, 17));
    assert_eq!(record.outstanding_action().map(|a| a.as_str()), Some("A1"));
    assert_eq!(record.state_version(), 5);
}

#[test]
fn malformed_commitment_rows_fail_closed() {
    let mut row = commitment_row();
    row.state = Err("expected value at line 1 column 1".to_owned());
    match CommitmentRecord::from_row(row) {
        Err(StoreError::InvalidPersistedData(message)) => assert_eq!(
            message,
            "invalid commitment state JSON: expected value at line 1 column 1"
        ),
        other => panic!("unexpected result: {other:?}"),
    }

    let mut row = commitment_row();
    row.acceptance_refs.push("  ".to_owned());
    assert!(is_persisted(&CommitmentRecord::from_row(row).expect_err("blank reference")));

    let mut row = commitment_row();
    row.prerequisites.push(("policy".to_owned(), "x".to_owned(), None));
    assert!(is_persisted(&CommitmentRecord::from_row(row).expect_err("unknown kind")));

    let mut row = commitment_row();
    row.claim = Some(("worker-1".to_owned(), 0, 1));
    assert!(is_persisted(&CommitmentRecord::from_row(row).expect_err("zero epoch")));

    let mut row = commitment_row();
    row.outstanding_action = Some(String::new());
    assert!(is_persisted(&CommitmentRecord::from_row(row).expect_err("blank action")));
}

fn persisted_message(row: CommitmentRow) -> String {
    match CommitmentRecord::from_row(row) {
        Err(StoreError::InvalidPersistedData(message)) => message,
        other => panic!("unexpected result: {other:?}"),
    }
}

#[test]
fn commitment_rows_report_the_first_malformed_part() {
    let mut row = commitment_row();
    row.claim = Some((" ".to_owned(), 0, -1));
    row.goal_id = String::new();
    assert_eq!(persisted_message(row), "invalid worker identifier \" \"");

    let mut row = commitment_row();
    row.claim = Some(("worker-1".to_owned(), 2, -4));
    row.commitment_id = String::new();
    assert_eq!(persisted_message(row), "claim heartbeat must not be negative, received -4");

    let mut row = commitment_row();
    row.goal_id = " ".to_owned();
    row.commitment_id = "\t".to_owned();
    assert_eq!(persisted_message(row), "invalid commitment identifier \"\\t\"");

    let mut row = commitment_row();
    row.goal_id = String::new();
    row.parent_id = Some(String::new());
    assert_eq!(persisted_message(row), "invalid goal identifier \"\"");

    let mut row = commitment_row();
    row.parent_id = Some(" ".to_owned());
    row.state = Err("bad".to_owned());
    assert_eq!(persisted_message(row), "invalid parent commitment identifier \" \"");

    let mut row = commitment_row();
    row.state = Ok(StoredCommitmentState::Waiting(StoredWaitingReason::HumanDecision(
        String::new(),
    )));
    row.prerequisites.push(("policy".to_owned(), "x".to_owned(), None));
    assert_eq!(persisted_message(row), "invalid human decision identifier \"\"");

    let mut row = commitment_row();
    row.prerequisites.insert(0, ("tethers_verification".to_owned(), " ".to_owned(), None));
    row.acceptance_refs.push(String::new());
    assert_eq!(persisted_message(row), "invalid Tethers contract identifier \" \"");

    let mut row = commitment_row();
    row.acceptance_refs.insert(1, " ".to_owned());
    row.outstanding_action = Some(String::new());
    assert_eq!(persisted_message(row), "invalid acceptance identifier \" \"");

    let mut row = commitment_row();
    row.outstanding_action = Some("  ".to_owned());
    assert_eq!(persisted_message(row), "invalid Tethers action identifier \"  \"");
}

#[test]
fn prerequisite_and_reference_lists_report_the_first_bad_row() {
    let rows = vec![
        ("human_decision".to_owned(), "d".to_owned(), None),
        ("commitment".to_owned(), "x".to_owned(), None),
        ("unknown".to_owned(), "y".to_owned(), None),
    ];
    match decode_prerequisites(&rows) {
        Err(StoreError::InvalidPersistedData(message)) => {
            assert_eq!(message, "commitment prerequisite is missing its typed reference")
        }
        other => panic!("unexpected result: {other:?}"),
    }
    assert_eq!(decode_prerequisites(&Vec::new()).expect("empty list").len(), 0);
    match parse_acceptance_refs(&vec!["ok".to_owned(), "".to_owned()]) {
        Err(StoreError::InvalidPersistedData(message)) => {
            assert_eq!(message, "invalid acceptance identifier \"\"")
        }
        other => panic!("unexpected result: {other:?}"),
    }
    match decode_commitment_state(Ok(StoredCommitmentState::Working)) {
        Ok(CommitmentState::Working) => {}
        other => panic!("unexpected result: {other:?}"),
    }
}

#[test]
fn attention_and_event_rows_are_validated() {
    let record = AttentionRecord::from_row(
        "att-1".to_owned(),
        Some("c-1".to_owned()),
        "look".to_owned(),
        "cleared".to_owned(),
    )
    .expect("valid");
    assert_eq!(record.attention_id().as_str(), "att-1");
    assert_eq!(record.commitment_id().map(|c| c.as_str()), Some("c-1"));
    assert_eq!(record.description(), "look");
    assert_eq!(record.state(), AttentionState::Cleared);
    assert!(AttentionRecord::from_row("att".to_owned(), None, String::new(), "closed".to_owned()).is_err());

    let event = EventRecord::from_row(
        12,
        "g-1".to_owned(),
        None,
        "goal_created".to_owned(),
        "{}".to_owned(),
        99,
    )
    .expect("valid");
    assert_eq!(event.event_id(), 12);
    assert_eq!(event.goal_id().as_str(), "g-1");
    assert!(event.commitment_id().is_none());
    assert_eq!(event.event_type(), "goal_created");
    assert_eq!(event.payload_json(), "{}");
    assert_eq!(event.created_at(), 99);
    match event.invalid_payload("EOF while parsing") {
        StoreError::InvalidPersistedData(message) => {
            assert_eq!(message, "event 12 has invalid payload JSON: EOF while parsing")
        }
        other => panic!("unexpected error: {other:?}"),
    }
    assert!(EventRecord::from_row(1, " ".to_owned(), None, String::new(), String::new(), 0).is_err());
}

fn guard_columns() -> RawGuardColumns {
    RawGuardColumns {
        guard_id: "guard-1".to_owned(),
        commitment_id: "c-1".to_owned(),
        claim_epoch: 2,
        boot_generation: 1,
        state: "issued".to_owned(),
        action_ref: None,
        outcome: None,
        reservation_expires_at: Some(40),
        state_version: 3,
    }
}

#[test]
fn guard_rows_decode_and_project_into_records() {
    let row = decode_guard_row(guard_columns()).expect("valid row");
    assert_eq!(row.guard_id.as_str(), "guard-1");
    assert_eq!(row.claim_epoch.value(), 2);
    assert_eq!(row.boot_generation.value(), 1);
    assert_eq!(row.reservation_expires_at.map(|t| t.ticks()), Some(40));
    assert_eq!(row.state_version, 3);
    let scopes = ScopeSet::try_new(vec![ScopeKey::try_new("s").expect("valid")]).expect("valid");
    let record = GuardRecord::from_row(row, scopes);
    assert_eq!(record.guard_id().as_str(), "guard-1");
    assert_eq!(record.commitment_id().as_str(), "c-1");
    assert_eq!(record.claim_epoch().value(), 2);
    assert_eq!(record.scope_keys().len(), 1);
    assert_eq!(record.boot_generation().value(), 1);
    assert_eq!(record.state(), &GuardState::Issued);
    assert_eq!(record.reservation_expires_at().map(|t| t.ticks()), Some(40));

    let mut resolved = guard_columns();
    resolved.state = "resolved".to_owned();
    resolved.action_ref = Some("A".to_owned());
    resolved.outcome = Some(Ok(StoredTethersOutcome::Uncertain("A".to_owned())));
    resolved.reservation_expires_at = None;
    let row = decode_guard_row(resolved).expect("resolved row");
    assert!(matches!(
        row.state,
        GuardState::Resolved { ref action_ref, .. } if *action_ref == TethersActionRef::try_new("A").expect("valid")
    ));
}

#[test]
fn malformed_guard_rows_fail_closed() {
    let mut columns = guard_columns();
    columns.claim_epoch = 0;
    assert!(matches!(
        decode_guard_row(columns),
        Err(StoreError::Domain(DomainError::InvalidNumericValue { kind: "claim epoch" }))
    ));
    let mut columns = guard_columns();
    columns.boot_generation = -1;
    assert!(matches!(
        decode_guard_row(columns),
        Err(StoreError::Domain(DomainError::InvalidNumericValue { kind: "boot generation" }))
    ));
    let mut columns = guard_columns();
    columns.reservation_expires_at = Some(-1);
    assert!(matches!(
        decode_guard_row(columns),
        Err(StoreError::Domain(DomainError::InvalidNumericValue { kind: "monotonic instant" }))
    ));
    let mut columns = guard_columns();
    columns.guard_id = String::new();
    assert!(is_persisted(&decode_guard_row(columns).expect_err("blank guard")));
    let mut columns = guard_columns();
    columns.reservation_expires_at = None;
    match decode_guard_row(columns) {
        Err(StoreError::InvalidPersistedData(message)) => {
            assert_eq!(message, "issued guard has inconsistent lifecycle fields")
        }
        other => panic!("unexpected result: {other:?}"),
    }
}
