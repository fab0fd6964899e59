use resolve::guards::canonicalize_scope_keys;
use resolve::{
    BootGeneration, ClaimEpoch, CommitmentId, DomainError, ExecutionGuard, GuardId, GuardState,
    MonotonicDuration, MonotonicInstant, ScopeKey, ScopeSet,
};

fn guard_id() -> GuardId {
    GuardId::try_new("guard-1").expect("test identifier is valid")
}

fn commitment_id() -> CommitmentId {
    CommitmentId::try_new("commitment-1").expect("test identifier is valid")
}

#[test]
fn scope_canonicalization_is_exact_and_deterministic() {
    let scopes = canonicalize_scope_keys(vec![
        ScopeKey::try_new("z").expect("scope is valid"),
        ScopeKey::try_new("a").expect("scope is valid"),
        ScopeKey::try_new("z").expect("scope is valid"),
    ]);
    assert_eq!(
        scopes,
        vec![
            ScopeKey::try_new("a").expect("scope is valid"),
            ScopeKey::try_new("z").expect("scope is valid"),
        ]
    );
}

#[test]
fn scope_sets_are_canonical_and_canonicalizing_them_again_changes_nothing() {
    let keys = |texts: &[&str]| -> Vec<ScopeKey> {
        texts.iter().map(|t| ScopeKey::try_new(t).expect("scope is valid")).collect()
    };
    let set = ScopeSet::try_new(keys(&["m", "b", "z", "b", "a"])).expect("scope set is valid");
    assert!(!set.is_empty());
    assert_eq!(set.len(), 4);
    let texts: Vec<&str> = set.as_slice().iter().map(|k| k.as_str()).collect();
    assert_eq!(texts, vec!["a", "b", "m", "z"]);
    let again = ScopeSet::try_new(set.as_slice().to_vec()).expect("scope set is valid");
    assert_eq!(again, set.clone());
    let reordered = ScopeSet::try_new(keys(&["z", "a", "m", "b", "z"])).expect("valid");
    assert!(reordered.same_as(&set));
    assert_eq!(reordered, set);
}

#[test]
fn empty_scope_sets_are_rejected_at_the_domain_boundary() {
    assert_eq!(
        ScopeSet::try_new(Vec::new()).expect_err("empty scope set is invalid"),
        DomainError::EmptyScopeSet
    );
}

#[test]
fn reservation_deadline_uses_the_earlier_validated_bound() {
    let deadline = ExecutionGuard::reservation_deadline(
        MonotonicInstant::from_ticks(10),
        MonotonicDuration::try_from_ticks(20).expect("duration is valid"),
        MonotonicInstant::from_ticks(25),
    )
    .expect("deadline is valid");
    assert_eq!(deadline, MonotonicInstant::from_ticks(25));
    assert_eq!(
        MonotonicDuration::try_from_ticks(0).expect_err("zero duration is invalid"),
        DomainError::InvalidDuration
    );
    assert_eq!(
        ExecutionGuard::reservation_deadline(
            MonotonicInstant::from_ticks(10),
            MonotonicDuration::try_from_ticks(1).expect("duration is valid"),
            MonotonicInstant::from_ticks(9),
        )
        .expect_err("past claim deadline is invalid"),
        DomainError::InvalidLeaseDeadline
    );
    assert_eq!(
        ExecutionGuard::reservation_deadline(
            MonotonicInstant::from_ticks(10),
            MonotonicDuration::try_from_ticks(1).expect("duration is valid"),
            MonotonicInstant::from_ticks(10),
        )
        .expect_err("claim expiring at now is invalid"),
        DomainError::InvalidLeaseDeadline
    );
}

#[test]
fn lease_deadline_overflow_fails_closed() {
    assert_eq!(
        MonotonicDuration::try_from_ticks(1)
            .expect("duration is valid")
            .deadline_from(MonotonicInstant::from_ticks(u64::MAX))
            .expect_err("overflow must be rejected"),
        DomainError::TimeOverflow
    );
}

#[test]
fn issued_guard_exposes_metadata_without_mutable_fields() {
    let guard = ExecutionGuard::issue(
        guard_id(),
        commitment_id(),
        ClaimEpoch::initial(),
        ScopeSet::try_new(vec![ScopeKey::try_new("scope").expect("scope is valid")])
            .expect("scope set is valid"),
        BootGeneration::from_raw(3),
        MonotonicInstant::from_ticks(20),
    );
    assert_eq!(guard.state(), &GuardState::Issued);
    assert_eq!(guard.clone(), guard);
    assert_eq!(guard.scope_keys().len(), 1);
}
