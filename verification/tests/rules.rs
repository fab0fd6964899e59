use resolve::codec::StoredCommitmentState;
use resolve::records::{decode_guard_row, GuardRow, RawGuardColumns};
use resolve::rules::{
    admission_precheck, admission_reservation_check, boot_generation_update, check_scope_locks,
    decode_boot_generation, decode_metadata_integer, ensure_version, expired_guard_ids,
    goal_revision_update, invalidation_precheck, next_state_version, not_found, plan_admission,
    plan_guard_issue, plan_invalidation, require_current_schema, require_live_reservation,
    schema_step, AdmissionCommitmentRow, GuardCommitmentRow, InvalidationClaimRow, SchemaStep,
    StoredClaim, SCHEMA_VERSION,
};
use resolve::{
    BootGeneration, ClaimEpoch, CommitmentId, DomainError, GoalId, GoalRevision, GoalSpec,
    GoalState, GuardAdmission, GuardId, GuardIssueRequest, GuardState, MonotonicDuration,
    MonotonicInstant, ScopeKey, ScopeSet, StoreError, TethersActionRef, Timestamp, WorkerId,
};

fn scopes(keys: &[&str]) -> ScopeSet {
    ScopeSet::try_new(keys.iter().map(|k| ScopeKey::try_new(k).expect("valid")).collect())
        .expect("non-empty")
}

fn claim_mismatch(result: Result<impl std::fmt::Debug, StoreError>) -> String {
    match result {
        Err(StoreError::ClaimMismatch { commitment_id, reason }) => {
            assert_eq!(commitment_id, "c-1");
            reason
        }
        other => panic!("unexpected result: {other:?}"),
    }
}

fn guard_invalid(result: Result<impl std::fmt::Debug, StoreError>) -> String {
    match result {
        Err(StoreError::GuardInvalid { guard_id, reason }) => {
            assert_eq!(guard_id, "guard-1");
            reason
        }
        other => panic!("unexpected result: {other:?}"),
    }
}

#[test]
fn versions_and_missing_rows_have_typed_errors() {
    assert!(ensure_version("goal", "g".to_owned(), 3, 3).is_ok());
    assert!(matches!(
        ensure_version("goal", "g".to_owned(), 3, 4),
        Err(StoreError::VersionConflict { entity: "goal", ref id, expected: 3, actual: 4 }) if id == "g"
    ));
    assert_eq!(next_state_version(41).expect("advances"), 42);
    assert!(matches!(
        next_state_version(i64::MAX),
        Err(StoreError::InvalidMutation(message)) if message == "state version space is exhausted"
    ));
    assert!(matches!(
        not_found("guard", "x".to_owned()),
        StoreError::NotFound { entity: "guard", ref id } if id == "x"
    ));
}

#[test]
fn metadata_integers_and_schema_versions_are_decided() {
    assert_eq!(decode_metadata_integer("schema_version is not an integer", "+12").expect("ok"), 12);
    assert_eq!(decode_metadata_integer("schema_version is not an integer", "-7").expect("ok"), -7);
    match decode_metadata_integer("schema_version is not an integer", "future") {
        Err(StoreError::InvalidPersistedData(message)) => {
            assert!(message.starts_with("schema_version is not an integer: "))
        }
        other => panic!("unexpected result: {other:?}"),
    }
    assert!(decode_metadata_integer("x", "99999999999999999999").is_err());
    assert!(decode_metadata_integer("x", " 1").is_err());
    assert_eq!(decode_boot_generation("5").expect("ok").value(), 5);
    assert!(matches!(
        decode_boot_generation("-1"),
        Err(StoreError::Domain(DomainError::InvalidNumericValue { kind: "boot generation" }))
    ));

    assert_eq!(schema_step(1).expect("v1 migrates"), SchemaStep::MigrateFromV1);
    assert_eq!(schema_step(SCHEMA_VERSION).expect("current"), SchemaStep::Reconcile);
    assert!(matches!(schema_step(3), Err(StoreError::UnsupportedSchemaVersion { version: 3 })));
    assert!(matches!(
        schema_step(0),
        Err(StoreError::InvalidPersistedData(message)) if message == "unsupported schema version 0"
    ));
    assert!(require_current_schema(SCHEMA_VERSION).is_ok());
    assert!(matches!(
        require_current_schema(4),
        Err(StoreError::InvalidPersistedData(message)) if message == "unsupported schema version 4; expected 2"
    ));
}

#[test]
fn boot_generations_only_advance() {
    assert_eq!(
        boot_generation_update(BootGeneration::from_raw(3), BootGeneration::from_raw(2))
            .expect("advances"),
        3
    );
    assert!(matches!(
        boot_generation_update(BootGeneration::from_raw(2), BootGeneration::from_raw(2)),
        Err(StoreError::InvalidMutation(message))
            if message == "boot generation must advance beyond the current generation"
    ));
    assert!(matches!(
        boot_generation_update(BootGeneration::from_raw(u64::MAX), BootGeneration::from_raw(2)),
        Err(StoreError::InvalidMutation(message)) if message == "boot generation does not fit in SQLite INTEGER"
    ));
}

fn goal(revision: u64) -> GoalSpec {
    let mut value = GoalRevision::initial();
    for _ in 1..revision {
        value = value.next().expect("advances");
    }
    GoalSpec::new(
        GoalId::try_new("g-1").expect("valid"),
        value,
        "goal",
        GoalState::Active,
        Timestamp::from_unix_seconds(0),
    )
    .expect("valid")
}

#[test]
fn goal_revisions_must_be_the_exact_next_at_the_read_version() {
    assert_eq!(goal_revision_update(&goal(2), 5, 5, 1).expect("next revision"), 6);
    assert!(matches!(
        goal_revision_update(&goal(2), 4, 5, 1),
        Err(StoreError::VersionConflict { entity: "goal", expected: 4, actual: 5, .. })
    ));
    assert!(matches!(
        goal_revision_update(&goal(1), 5, 5, 1),
        Err(StoreError::DuplicateImmutableRevision { ref goal_id, revision: 1 }) if goal_id == "g-1"
    ));
    assert!(matches!(
        goal_revision_update(&goal(4), 5, 5, 1),
        Err(StoreError::InvalidMutation(message)) if message == "goal revision must be 2, received 4"
    ));
    assert!(matches!(
        goal_revision_update(&goal(2), 5, 5, i64::MAX),
        Err(StoreError::InvalidMutation(message)) if message == "goal revision space is exhausted"
    ));
    assert!(matches!(
        goal_revision_update(&goal(2), i64::MAX, i64::MAX, 1),
        Err(StoreError::InvalidMutation(message)) if message == "state version space is exhausted"
    ));
    assert!(matches!(
        goal_revision_update(&goal(3), 5, 5, -1),
        Err(StoreError::DuplicateImmutableRevision { revision: 3, .. })
    ));
}

fn request(now: u64, ttl: u64, lease: u64) -> GuardIssueRequest {
    GuardIssueRequest {
        guard_id: GuardId::try_new("guard-1").expect("valid"),
        commitment_id: CommitmentId::try_new("c-1").expect("valid"),
        worker_id: WorkerId::try_new("worker-1").expect("valid"),
        claim_epoch: ClaimEpoch::initial(),
        scope_keys: scopes(&["repo"]),
        boot_generation: BootGeneration::from_raw(0),
        now: MonotonicInstant::from_ticks(now),
        guard_ttl: MonotonicDuration::try_from_ticks(ttl).expect("positive"),
        claim_lease_duration: MonotonicDuration::try_from_ticks(lease).expect("positive"),
    }
}

fn working_row() -> Option<GuardCommitmentRow> {
    Some(GuardCommitmentRow {
        goal_id: "g-1".to_owned(),
        state: Ok(StoredCommitmentState::Working),
        outstanding_action: None,
    })
}

fn stored_claim() -> Option<StoredClaim> {
    Some(StoredClaim {
        worker_id: "worker-1".to_owned(),
        claim_epoch: 1,
        last_heartbeat: 10,
        boot_generation: 0,
    })
}

#[test]
fn guard_issue_reserves_until_the_earlier_deadline() {
    let plan = plan_guard_issue(&request(12, 5, 10), working_row(), stored_claim(), Ok(BootGeneration::from_raw(0)))
        .expect("issue is allowed");
    assert_eq!(plan.reservation_expires_at.ticks(), 17);
    assert_eq!(plan.reservation_ticks, 17);
    assert_eq!(plan.now_ticks, 12);
    assert_eq!(plan.claim_epoch_ticks, 1);
    assert_eq!(plan.boot_generation_ticks, 0);

    let plan = plan_guard_issue(&request(12, 50, 10), working_row(), stored_claim(), Ok(BootGeneration::from_raw(0)))
        .expect("issue is allowed");
    assert_eq!(plan.reservation_expires_at.ticks(), 20);
}

#[test]
fn guard_issue_is_fenced_by_state_claim_boot_and_lease() {
    let boot = || Ok(BootGeneration::from_raw(0));
    assert!(matches!(
        plan_guard_issue(&request(12, 5, 10), None, stored_claim(), boot()),
        Err(StoreError::NotFound { entity: "commitment", .. })
    ));
    let ready = Some(GuardCommitmentRow {
        goal_id: "g-1".to_owned(),
        state: Ok(StoredCommitmentState::Ready),
        outstanding_action: None,
    });
    assert_eq!(
        guard_invalid(plan_guard_issue(&request(12, 5, 10), ready, stored_claim(), boot())),
        "commitment is in Ready, not a work-owning state"
    );
    let busy = Some(GuardCommitmentRow {
        goal_id: "g-1".to_owned(),
        state: Ok(StoredCommitmentState::Claimed),
        outstanding_action: Some("A".to_owned()),
    });
    assert_eq!(
        guard_invalid(plan_guard_issue(&request(12, 5, 10), busy, stored_claim(), boot())),
        "commitment already has an outstanding action"
    );
    assert_eq!(
        claim_mismatch(plan_guard_issue(&request(12, 5, 10), working_row(), None, boot())),
        "commitment has no current claim"
    );
    let other_worker = Some(StoredClaim { worker_id: "worker-2".to_owned(), ..stored_claim().unwrap() });
    assert_eq!(
        claim_mismatch(plan_guard_issue(&request(12, 5, 10), working_row(), other_worker, boot())),
        "claim belongs to worker worker-2, not worker-1"
    );
    let old_epoch = Some(StoredClaim { claim_epoch: 7, ..stored_claim().unwrap() });
    assert_eq!(
        claim_mismatch(plan_guard_issue(&request(12, 5, 10), working_row(), old_epoch, boot())),
        "claim epoch is 7, not 1"
    );
    assert_eq!(
        claim_mismatch(plan_guard_issue(
            &request(12, 5, 10),
            working_row(),
            stored_claim(),
            Ok(BootGeneration::from_raw(1))
        )),
        "claim and guard request are not from the current boot generation"
    );
    assert!(matches!(
        plan_guard_issue(&request(20, 5, 10), working_row(), stored_claim(), boot()),
        Err(StoreError::LeaseExpired { ref commitment_id }) if commitment_id == "c-1"
    ));
    assert!(matches!(
        plan_guard_issue(&request(12, u64::MAX, 10), working_row(), stored_claim(), boot()),
        Err(StoreError::Domain(DomainError::TimeOverflow))
    ));
    let negative_heartbeat = Some(StoredClaim { last_heartbeat: -1, ..stored_claim().unwrap() });
    assert!(matches!(
        plan_guard_issue(&request(12, 5, 10), working_row(), negative_heartbeat, boot()),
        Err(StoreError::Domain(DomainError::InvalidNumericValue { kind: "monotonic instant" }))
    ));
    assert!(matches!(
        plan_guard_issue(&request(u64::MAX, 5, 10), working_row(), stored_claim(), boot()),
        Err(StoreError::InvalidMutation(message)) if message == "current monotonic instant does not fit in SQLite INTEGER"
    ));
    assert!(matches!(
        plan_guard_issue(
            &request(12, 5, 10),
            working_row(),
            stored_claim(),
            Err(StoreError::InvalidPersistedData("boot".to_owned()))
        ),
        Err(StoreError::InvalidPersistedData(message)) if message == "boot"
    ));
}

#[test]
fn locked_scopes_and_expired_reservations_are_found() {
    let free = vec![(ScopeKey::try_new("a").expect("valid"), None)];
    assert!(check_scope_locks(&free).is_ok());
    let locked = vec![
        (ScopeKey::try_new("a").expect("valid"), None),
        (ScopeKey::try_new("b").expect("valid"), Some("guard-9".to_owned())),
        (ScopeKey::try_new("c").expect("valid"), Some("guard-8".to_owned())),
    ];
    assert!(matches!(
        check_scope_locks(&locked),
        Err(StoreError::ScopeLocked { ref scope_key, ref guard_id }) if scope_key == "b" && guard_id == "guard-9"
    ));

    let reserved = vec![
        Some(("g-2".to_owned(), Some(10))),
        None,
        Some(("g-1".to_owned(), Some(50))),
        Some(("g-2".to_owned(), Some(10))),
        Some(("g-3".to_owned(), Some(51))),
        Some(("g-4".to_owned(), None)),
    ];
    assert_eq!(expired_guard_ids(&reserved, 50), vec!["g-2".to_owned(), "g-1".to_owned()]);
    assert_eq!(
        expired_guard_ids(&reserved, 51),
        vec!["g-2".to_owned(), "g-1".to_owned(), "g-3".to_owned()]
    );
    assert!(expired_guard_ids(&reserved, 9).is_empty());
    let reversed: Vec<Option<(String, Option<i64>)>> = reserved.iter().rev().cloned().collect();
    assert_eq!(
        expired_guard_ids(&reversed, 51),
        vec!["g-3".to_owned(), "g-2".to_owned(), "g-1".to_owned()]
    );
    assert!(expired_guard_ids(&vec![None, None], 100).is_empty());
}

fn guard_row(state: &str, action: Option<&str>, reservation: Option<i64>) -> GuardRow {
    decode_guard_row(RawGuardColumns {
        guard_id: "guard-1".to_owned(),
        commitment_id: "c-1".to_owned(),
        claim_epoch: 1,
        boot_generation: 0,
        state: state.to_owned(),
        action_ref: action.map(|a| a.to_owned()),
        outcome: None,
        reservation_expires_at: reservation,
        state_version: 4,
    })
    .expect("valid guard row")
}

#[test]
fn repeated_admission_is_idempotent_and_changes_are_rejected() {
    let guard_id = GuardId::try_new("guard-1").expect("valid");
    let action = TethersActionRef::try_new("A").expect("valid");
    let other = TethersActionRef::try_new("B").expect("valid");
    let admitted = GuardState::Admitted { action_ref: action.clone() };
    let stored = scopes(&["x", "y"]);
    assert_eq!(
        admission_precheck(&guard_id, &admitted, &stored, &scopes(&["y", "x"]), &action)
            .expect("same admission"),
        Some(GuardAdmission::AlreadyAdmitted)
    );
    assert_eq!(
        guard_invalid(admission_precheck(&guard_id, &admitted, &stored, &scopes(&["x"]), &action)),
        "admitted guard scope set cannot be changed"
    );
    assert_eq!(
        guard_invalid(admission_precheck(&guard_id, &admitted, &stored, &stored, &other)),
        "guard is already admitted for another action"
    );
    assert_eq!(
        admission_precheck(&guard_id, &GuardState::Issued, &stored, &stored, &action)
            .expect("issued guard proceeds"),
        None
    );
    assert_eq!(
        guard_invalid(admission_precheck(&guard_id, &GuardState::Invalidated, &stored, &stored, &action)),
        "guard is in terminal state Invalidated"
    );
}

#[test]
fn admission_requires_a_live_exact_reservation() {
    let guard_id = GuardId::try_new("guard-1").expect("valid");
    let issued = guard_row("issued", None, Some(30));
    let stored = scopes(&["x"]);
    assert!(admission_reservation_check(&guard_id, &issued, &stored, &stored, &vec![true], MonotonicInstant::from_ticks(29)).is_ok());
    assert!(matches!(
        admission_reservation_check(&guard_id, &issued, &stored, &stored, &vec![true], MonotonicInstant::from_ticks(30)),
        Err(StoreError::LeaseExpired { .. })
    ));
    assert_eq!(
        guard_invalid(admission_reservation_check(&guard_id, &issued, &stored, &scopes(&["z"]), &vec![true], MonotonicInstant::from_ticks(1))),
        "admission scope set does not exactly match issuance"
    );
    assert_eq!(
        guard_invalid(admission_reservation_check(&guard_id, &issued, &stored, &stored, &vec![false], MonotonicInstant::from_ticks(1))),
        "reserved scope lock is missing or owned by another guard"
    );
    let invalidated = guard_row("invalidated", None, None);
    assert!(matches!(
        admission_reservation_check(&guard_id, &invalidated, &stored, &stored, &vec![true], MonotonicInstant::from_ticks(1)),
        Err(StoreError::LeaseExpired { .. })
    ));
}

fn admission_row() -> AdmissionCommitmentRow {
    AdmissionCommitmentRow {
        goal_id: "g-1".to_owned(),
        state: Ok(StoredCommitmentState::Working),
        outstanding_action: None,
        state_version: 9,
        claim_epoch: Some(1),
        worker: Some("worker-1".to_owned()),
        boot_generation: Some(0),
    }
}

#[test]
fn admission_binds_only_working_current_claims() {
    let guard_id = GuardId::try_new("guard-1").expect("valid");
    let guard = guard_row("issued", None, Some(30));
    let boot = || Ok(BootGeneration::from_raw(0));
    let plan = plan_admission(&guard_id, &guard, Some(admission_row()), boot()).expect("admits");
    assert_eq!(plan.goal_id.as_str(), "g-1");
    assert_eq!(plan.expected_commitment_version, 9);
    assert_eq!(plan.next_commitment_version, 10);
    assert_eq!(plan.next_guard_version, 5);

    let claimed = AdmissionCommitmentRow { state: Ok(StoredCommitmentState::Claimed), ..admission_row() };
    assert_eq!(
        guard_invalid(plan_admission(&guard_id, &guard, Some(claimed), boot())),
        "commitment is in Claimed, not WORKING"
    );
    let stale = AdmissionCommitmentRow { claim_epoch: Some(2), ..admission_row() };
    assert_eq!(
        claim_mismatch(plan_admission(&guard_id, &guard, Some(stale), boot())),
        "claim epoch is 2, guard epoch is 1"
    );
    let unclaimed = AdmissionCommitmentRow { worker: None, ..admission_row() };
    assert_eq!(
        claim_mismatch(plan_admission(&guard_id, &guard, Some(unclaimed), boot())),
        "commitment has no current claim"
    );
    let old_boot = AdmissionCommitmentRow { boot_generation: Some(1), ..admission_row() };
    assert_eq!(
        claim_mismatch(plan_admission(&guard_id, &guard, Some(old_boot), boot())),
        "claim and guard are not from the current boot generation"
    );
    assert!(matches!(
        plan_admission(&guard_id, &guard, None, boot()),
        Err(StoreError::NotFound { entity: "commitment", .. })
    ));
}

#[test]
fn invalidation_requires_the_current_claimant_before_expiry() {
    let guard_id = GuardId::try_new("guard-1").expect("valid");
    let issued = guard_row("issued", None, Some(30));
    assert!(invalidation_precheck(&guard_id, &issued).is_ok());
    assert_eq!(
        guard_invalid(invalidation_precheck(&guard_id, &guard_row("admitted", Some("A"), None))),
        "only an issued guard can be invalidated"
    );
    assert!(require_live_reservation(&issued, MonotonicInstant::from_ticks(29)).is_ok());
    assert!(require_live_reservation(&issued, MonotonicInstant::from_ticks(30)).is_err());

    let claim = || {
        Some(InvalidationClaimRow {
            goal_id: "g-1".to_owned(),
            worker_id: "worker-1".to_owned(),
            claim_epoch: 1,
            boot_generation: 0,
        })
    };
    let worker = WorkerId::try_new("worker-1").expect("valid");
    let now = MonotonicInstant::from_ticks(10);
    let deadline = MonotonicInstant::from_ticks(20);
    let boot = || Ok(BootGeneration::from_raw(0));
    let plan = plan_invalidation(&issued, claim(), &worker, ClaimEpoch::initial(), now, deadline, boot())
        .expect("current claimant invalidates");
    assert_eq!(plan.goal_id.as_str(), "g-1");
    assert_eq!(plan.next_guard_version, 5);
    assert!(matches!(
        plan_invalidation(&issued, claim(), &worker, ClaimEpoch::initial(), now, now, boot()),
        Err(StoreError::LeaseExpired { .. })
    ));
    let intruder = WorkerId::try_new("worker-2").expect("valid");
    assert_eq!(
        claim_mismatch(plan_invalidation(&issued, claim(), &intruder, ClaimEpoch::initial(), now, deadline, boot())),
        "invalidation request does not match the current claim"
    );
    assert_eq!(
        claim_mismatch(plan_invalidation(&issued, None, &worker, ClaimEpoch::initial(), now, deadline, boot())),
        "commitment has no current claim"
    );
}

#[test]
fn error_messages_describe_the_failure() {
    assert_eq!(
        DomainError::InvalidIdentifier { kind: "goal" }.message(),
        "goal identifier must not be empty"
    );
    assert_eq!(
        DomainError::StaleEpoch { expected: ClaimEpoch::try_from_raw(3).unwrap(), actual: ClaimEpoch::initial() }.message(),
        "claim epoch 1 is stale; current epoch is 3"
    );
    assert_eq!(
        StoreError::VersionConflict { entity: "goal", id: "g".to_owned(), expected: 1, actual: 2 }.message(),
        "goal g has version 2, expected 1"
    );
    assert_eq!(
        StoreError::ScopeLocked { scope_key: "repo".to_owned(), guard_id: "guard-1".to_owned() }.message(),
        "scope \"repo\" is locked by guard guard-1"
    );
    assert_eq!(
        StoreError::Domain(DomainError::NotClaimed).message(),
        "domain error: commitment has no active claim"
    );
    assert_eq!(
        StoreError::Domain(DomainError::InvalidTransition {
            from: resolve::CommitmentState::Ready,
            to: resolve::CommitmentState::Completed,
        })
        .message(),
        "domain error: invalid commitment transition from Ready to Completed"
    );
}

#[test]
fn integers_written_in_decimal_read_back_unchanged() {
    for value in [0, 1, -1, 42, -9_876_543_210, i64::MAX, i64::MIN] {
        let written = resolve::text::decimal_i64(value);
        assert_eq!(decode_metadata_integer("value is not an integer", &written).expect("reads back"), value);
    }
    let generation = BootGeneration::from_raw(77);
    let written = resolve::text::decimal_u64(generation.value());
    assert_eq!(decode_boot_generation(&written).expect("reads back"), generation);
}

#[test]
fn wrapped_outside_errors_keep_their_own_description() {
    let json_error = serde_json::from_str::<i32>("not json").expect_err("invalid JSON");
    let expected = format!("serialization error: {json_error}");
    assert_eq!(StoreError::Serialization(json_error).message(), expected);
    let sqlite_error = rusqlite::Error::QueryReturnedNoRows;
    let expected = format!("SQLite error: {sqlite_error}");
    assert_eq!(StoreError::Sqlite(sqlite_error).message(), expected);
}
