use resolve::codec::{
    checked_i64, decode_attention_state, decode_goal_state, decode_guard_state,
    decode_prerequisite, encode_attention_state, encode_goal_state, nonnegative_u64, parse_id,
    positive_u64, prerequisite_columns, StoredCommitmentState, StoredTethersOutcome,
    StoredWaitingReason,
};
use resolve::text::{decimal_i64, decimal_u64, join_text, str_is_blank, text_eq};
use resolve::{
    AttentionState, CommitmentId, CommitmentState, GoalId, GoalState, GuardState,
    HumanDecisionRef, Prerequisite, StoreError, TethersActionRef, TethersContractRef,
    TethersOutcome, WaitingReason,
};

fn action(value: &str) -> TethersActionRef {
    TethersActionRef::try_new(value).expect("action is valid")
}

fn persisted_message(error: StoreError) -> String {
    match error {
        StoreError::InvalidPersistedData(message) => message,
        other => panic!("unexpected error: {other:?}"),
    }
}

#[test]
fn integers_too_large_for_sqlite_are_rejected_with_their_field() {
    assert_eq!(checked_i64(42, "claim epoch").expect("fits"), 42);
    assert_eq!(checked_i64(i64::MAX as u64, "claim epoch").expect("fits"), i64::MAX);
    match checked_i64(u64::MAX, "claim epoch") {
        Err(StoreError::InvalidMutation(message)) => {
            assert_eq!(message, "claim epoch does not fit in SQLite INTEGER")
        }
        other => panic!("unexpected result: {other:?}"),
    }
}

#[test]
fn stored_counters_must_be_in_range() {
    assert_eq!(positive_u64(7, "goal revision").expect("positive"), 7);
    assert_eq!(
        persisted_message(positive_u64(0, "goal revision").expect_err("zero")),
        "goal revision must be positive, received 0"
    );
    assert_eq!(
        persisted_message(positive_u64(-3, "goal revision").expect_err("negative")),
        "goal revision must be positive, received -3"
    );
    assert_eq!(nonnegative_u64(0, "claim heartbeat").expect("zero is fine"), 0);
    assert_eq!(
        persisted_message(nonnegative_u64(-1, "claim heartbeat").expect_err("negative")),
        "claim heartbeat must not be negative, received -1"
    );
}

#[test]
fn decimal_text_matches_display() {
    assert_eq!(decimal_u64(0), "0");
    assert_eq!(decimal_u64(1234567890), "1234567890");
    assert_eq!(decimal_u64(u64::MAX), u64::MAX.to_string());
    assert_eq!(decimal_i64(-42), "-42");
    assert_eq!(decimal_i64(i64::MIN), i64::MIN.to_string());
    assert_eq!(decimal_i64(i64::MAX), i64::MAX.to_string());
    assert_eq!(join_text("ab", "cd"), "abcd");
    assert!(text_eq("same", "same"));
    assert!(!text_eq("same", "Same"));
    assert!(str_is_blank(" \t\n\u{3000}"));
    assert!(!str_is_blank(" x "));
}

#[test]
fn blank_stored_identifiers_are_malformed_data() {
    let id: GoalId = parse_id("goal-7".to_owned(), "goal").expect("identifier is valid");
    assert_eq!(id.as_str(), "goal-7");
    let error = parse_id::<GoalId>("  ".to_owned(), "goal").expect_err("blank");
    assert_eq!(persisted_message(error), "invalid goal identifier \"  \"");
}

#[test]
fn goal_and_attention_states_round_trip_through_their_text() {
    for state in [
        GoalState::Active,
        GoalState::Completed,
        GoalState::Cancelled,
        GoalState::Abandoned,
    ] {
        assert_eq!(decode_goal_state(encode_goal_state(&state)).expect("decodes"), state);
    }
    assert_eq!(encode_goal_state(&GoalState::Cancelled), "cancelled");
    assert_eq!(
        persisted_message(decode_goal_state("paused").expect_err("unknown")),
        "unknown goal state \"paused\""
    );
    for state in [AttentionState::Open, AttentionState::Cleared] {
        assert_eq!(
            decode_attention_state(encode_attention_state(state)).expect("decodes"),
            state
        );
    }
    assert_eq!(
        persisted_message(decode_attention_state("OPEN").expect_err("case matters")),
        "unknown attention state \"OPEN\""
    );
}

#[test]
fn commitment_states_round_trip_through_their_serialised_form() {
    let states = vec![
        CommitmentState::Proposed,
        CommitmentState::Ready,
        CommitmentState::Claimed,
        CommitmentState::Working,
        CommitmentState::Waiting(WaitingReason::Prerequisite(
            CommitmentId::try_new("child").expect("valid"),
        )),
        CommitmentState::Waiting(WaitingReason::Authority(action("a-1"))),
        CommitmentState::Waiting(WaitingReason::HumanDecision(
            HumanDecisionRef::try_new("decision").expect("valid"),
        )),
        CommitmentState::Waiting(WaitingReason::Verification(
            TethersContractRef::try_new("contract").expect("valid"),
        )),
        CommitmentState::Waiting(WaitingReason::UncertainAction(action("a-2"))),
        CommitmentState::Waiting(WaitingReason::External("  ".to_owned())),
        CommitmentState::RecoveryPending,
        CommitmentState::CompletionProposed,
        CommitmentState::Completed,
        CommitmentState::Cancelled,
        CommitmentState::Abandoned,
    ];
    for state in states {
        let restored = StoredCommitmentState::from_state(&state)
            .into_domain()
            .expect("written state reads back");
        assert_eq!(restored, state);
    }
}

#[test]
fn blank_references_in_a_serialised_reason_are_rejected() {
    let error = StoredWaitingReason::Prerequisite(" ".to_owned())
        .into_domain()
        .expect_err("blank commitment reference");
    assert_eq!(persisted_message(error), "invalid commitment identifier \" \"");
    let error = StoredCommitmentState::Waiting(StoredWaitingReason::Verification(String::new()))
        .into_domain()
        .expect_err("blank contract reference");
    assert_eq!(persisted_message(error), "invalid Tethers contract identifier \"\"");
    assert!(StoredWaitingReason::External(String::new()).into_domain().is_ok());
}

#[test]
fn outcomes_round_trip_and_blank_actions_are_rejected() {
    for outcome in [
        TethersOutcome::Succeeded { action_ref: action("a") },
        TethersOutcome::Failed { action_ref: action("b") },
        TethersOutcome::Uncertain { action_ref: action("c") },
    ] {
        let restored = StoredTethersOutcome::from_outcome(&outcome)
            .into_domain()
            .expect("reads back");
        assert_eq!(restored, outcome);
    }
    let error = StoredTethersOutcome::Failed("\t".to_owned())
        .into_domain()
        .expect_err("blank action");
    assert_eq!(persisted_message(error), "invalid Tethers action identifier \"\\t\"");
}

#[test]
fn prerequisite_columns_round_trip() {
    let prerequisites = vec![
        Prerequisite::Commitment(CommitmentId::try_new("dep").expect("valid")),
        Prerequisite::TethersVerification(TethersContractRef::try_new("contract").expect("valid")),
        Prerequisite::HumanDecision(HumanDecisionRef::try_new("decision").expect("valid")),
    ];
    for prerequisite in prerequisites {
        let (kind, reference, link) = prerequisite_columns(&prerequisite);
        let decoded =
            decode_prerequisite(kind.to_owned(), reference, link).expect("columns read back");
        assert_eq!(decoded, prerequisite);
    }
    let (kind, reference, link) =
        prerequisite_columns(&Prerequisite::Commitment(CommitmentId::try_new("x").expect("valid")));
    assert_eq!((kind, reference.as_str(), link.as_deref()), ("commitment", "x", Some("x")));
}

#[test]
fn malformed_prerequisite_rows_are_reported() {
    let missing = decode_prerequisite("commitment".to_owned(), "dep".to_owned(), None);
    assert_eq!(
        persisted_message(missing.expect_err("missing link")),
        "commitment prerequisite is missing its typed reference"
    );
    let disagree =
        decode_prerequisite("commitment".to_owned(), "dep".to_owned(), Some("other".to_owned()));
    assert_eq!(
        persisted_message(disagree.expect_err("links disagree")),
        "commitment prerequisite references disagree"
    );
    let unknown = decode_prerequisite("policy".to_owned(), "dep".to_owned(), None);
    assert_eq!(
        persisted_message(unknown.expect_err("unknown kind")),
        "unknown prerequisite type \"policy\""
    );
    let blank = decode_prerequisite("human_decision".to_owned(), " ".to_owned(), None);
    assert_eq!(
        persisted_message(blank.expect_err("blank reference")),
        "invalid human decision identifier \" \""
    );
}

#[test]
fn guard_states_decode_only_with_consistent_lifecycle_fields() {
    assert_eq!(
        decode_guard_state("issued", None, None, Some(10)).expect("issued"),
        GuardState::Issued
    );
    assert_eq!(
        decode_guard_state("admitted", Some("a".to_owned()), None, None).expect("admitted"),
        GuardState::Admitted { action_ref: action("a") }
    );
    assert_eq!(
        decode_guard_state(
            "resolved",
            Some("a".to_owned()),
            Some(Ok(StoredTethersOutcome::Succeeded("a".to_owned()))),
            None
        )
        .expect("resolved"),
        GuardState::Resolved {
            action_ref: action("a"),
            outcome: TethersOutcome::Succeeded { action_ref: action("a") },
        }
    );
    assert_eq!(
        decode_guard_state("uncertain", Some("a".to_owned()), None, None).expect("uncertain"),
        GuardState::Uncertain { action_ref: action("a") }
    );
    assert_eq!(
        decode_guard_state("invalidated", None, None, None).expect("invalidated"),
        GuardState::Invalidated
    );

    let cases = vec![
        (
            decode_guard_state("issued", None, None, None),
            "issued guard has inconsistent lifecycle fields",
        ),
        (
            decode_guard_state("admitted", None, None, None),
            "admitted guard is missing action_ref",
        ),
        (
            decode_guard_state("admitted", Some("a".to_owned()), None, Some(3)),
            "admitted guard has inconsistent lifecycle fields",
        ),
        (
            decode_guard_state("resolved", Some("a".to_owned()), None, None),
            "resolved guard is missing outcome",
        ),
        (
            decode_guard_state(
                "resolved",
                Some("a".to_owned()),
                Some(Ok(StoredTethersOutcome::Failed("b".to_owned()))),
                None,
            ),
            "resolved guard action and outcome disagree",
        ),
        (
            decode_guard_state(
                "resolved",
                Some("a".to_owned()),
                Some(Ok(StoredTethersOutcome::Failed("a".to_owned()))),
                Some(1),
            ),
            "resolved guard has a reservation expiration",
        ),
        (
            decode_guard_state("uncertain", None, None, None),
            "uncertain guard is missing action_ref",
        ),
        (
            decode_guard_state("invalidated", Some("a".to_owned()), None, None),
            "invalidated guard has lifecycle fields",
        ),
        (decode_guard_state("revoked", None, None, None), "unknown guard state"),
    ];
    for (result, expected) in cases {
        assert_eq!(persisted_message(result.expect_err("malformed row")), expected);
    }

    let passed_through = decode_guard_state(
        "resolved",
        Some("a".to_owned()),
        Some(Err(StoreError::InvalidMutation("unparsable outcome".to_owned()))),
        None,
    );
    assert!(matches!(
        passed_through,
        Err(StoreError::InvalidMutation(message)) if message == "unparsable outcome"
    ));
}
