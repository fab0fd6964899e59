//! The store's decisions: optimistic concurrency, schema versions, boot
//! generations, goal revisions, and the fencing checks that guard issuance,
//! admission and invalidation make against the stored claim.
use crate::codec::{
    checked_i64, invalid_id_message, parse_id, state_restorable, StoredCommitmentState,
};
use crate::domain::{CommitmentState, GoalSpec};
use crate::error::DomainError;
use crate::guards::{ExecutionGuard, GuardState, GuardStateView, ScopeSet, same_key_texts};
use crate::ids::{GoalId, GuardId, ScopeKey, TethersActionRef, WorkerId};
use crate::records::{decode_commitment_state, GuardAdmission, GuardIssueRequest, GuardRow};
use crate::describe::{
    describe_guard_state, describe_state, guard_state_description, state_description,
};
use crate::store_error::StoreError;
use crate::text::{
    decimal_digits, decimal_i64, decimal_u64, is_blank, join_text, parse_error_text, parse_i64,
    signed_decimal,
    spelled_integer, text_eq,
};
use crate::values::{BootGeneration, ClaimEpoch, MonotonicInstant};
use vstd::prelude::*;

verus! {

/// The schema version this store reads and writes.
pub const SCHEMA_VERSION: i64 = 2;

/// The state version that a newly inserted row starts at.
pub const INITIAL_STATE_VERSION: i64 = 1;

/// The error for a row that does not exist.
pub fn not_found(entity: &'static str, id: String) -> (r: StoreError)
    ensures
        r == (StoreError::NotFound { entity, id }),
{
    StoreError::NotFound { entity, id }
}

/// Optimistic concurrency: a change applies only to the version it was read at.
pub fn ensure_version(entity: &'static str, id: String, expected: i64, actual: i64) -> (r: Result<
    (),
    StoreError,
>)
    ensures
        r == if expected == actual {
            Ok(())
        } else {
            Err(StoreError::VersionConflict { entity, id, expected, actual })
        },
{
    if expected == actual {
        Ok(())
    } else {
        Err(StoreError::VersionConflict { entity, id, expected, actual })
    }
}

/// The state version that follows `current`.
pub fn next_state_version(current: i64) -> (r: Result<i64, StoreError>)
    ensures
        match r {
            Ok(v) => current < i64::MAX && v == current + 1,
            Err(e) => current == i64::MAX && (e matches StoreError::InvalidMutation(m) && m@
                == "state version space is exhausted"@),
        },
{
    if current < i64::MAX {
        Ok(current + 1)
    } else {
        Err(StoreError::InvalidMutation("state version space is exhausted".to_owned()))
    }
}

/// Reads an integer metadata value; `what` names it in the error, which carries the
/// parser's message after `": "`.
pub fn decode_metadata_integer(what: &str, value: &str) -> (r: Result<i64, StoreError>)
    ensures
        match r {
            Ok(v) => spelled_integer(value@) == Some(v as int),
            Err(e) => {
                &&& !(spelled_integer(value@) matches Some(v) && i64::MIN <= v <= i64::MAX)
                &&& e matches StoreError::InvalidPersistedData(m) && (what@ + ": "@).is_prefix_of(
                    m@,
                )
            },
        },
{
    match parse_i64(value) {
        Ok(v) => Ok(v),
        Err(error) => {
            let detail = parse_error_text(&error);
            let head = join_text(what, ": ");
            let message = join_text(head.as_str(), detail.as_str());
            assert((what@ + ": "@).is_prefix_of(message@)) by {
                assert(message@.subrange(0, head@.len() as int) =~= head@);
            }
            Err(StoreError::InvalidPersistedData(message))
        },
    }
}

/// Reads the stored boot generation: an integer that must not be negative.
pub fn decode_boot_generation(value: &str) -> (r: Result<BootGeneration, StoreError>)
    ensures
        match r {
            Ok(g) => spelled_integer(value@) == Some(g@ as int),
            Err(e) => match spelled_integer(value@) {
                Some(v) => if i64::MIN <= v <= i64::MAX {
                    v < 0 && e == StoreError::Domain(
                        DomainError::InvalidNumericValue { kind: "boot generation" },
                    )
                } else {
                    e is InvalidPersistedData
                },
                None => e is InvalidPersistedData,
            },
        },
{
    let raw = match decode_metadata_integer("boot_generation is not an integer", value) {
        Ok(v) => v,
        Err(e) => {
            return Err(e);
        },
    };
    match BootGeneration::try_from_raw(raw) {
        Ok(g) => Ok(g),
        Err(e) => Err(StoreError::Domain(e)),
    }
}

/// What opening a store of a given schema version does.
#[derive(Clone, Copy, Debug, PartialEq, Eq, Structural)]
pub enum SchemaStep {
    /// Migrate a version 1 store to the current version.
    MigrateFromV1,
    /// The store is current: re-apply the idempotent parts of the current schema.
    Reconcile,
}

/// The step that opens a store whose metadata reports `version`.
pub fn schema_step(version: i64) -> (r: Result<SchemaStep, StoreError>)
    ensures
        match r {
            Ok(step) => (version == 1 && step == SchemaStep::MigrateFromV1) || (version
                == SCHEMA_VERSION && step == SchemaStep::Reconcile),
            Err(e) => if version > SCHEMA_VERSION {
                e == StoreError::UnsupportedSchemaVersion { version }
            } else {
                version < 1 && (e matches StoreError::InvalidPersistedData(m) && m@
                    == "unsupported schema version "@ + signed_decimal(version as int))
            },
        },
{
    if version == 1 {
        Ok(SchemaStep::MigrateFromV1)
    } else if version == SCHEMA_VERSION {
        Ok(SchemaStep::Reconcile)
    } else if version > SCHEMA_VERSION {
        Err(StoreError::UnsupportedSchemaVersion { version })
    } else {
        let number = decimal_i64(version);
        Err(StoreError::InvalidPersistedData(join_text("unsupported schema version ", number.as_str())))
    }
}

/// After opening, the store must be at the current schema version.
pub fn require_current_schema(version: i64) -> (r: Result<(), StoreError>)
    ensures
        match r {
            Ok(()) => version == SCHEMA_VERSION,
            Err(e) => version != SCHEMA_VERSION && (e matches StoreError::InvalidPersistedData(m)
                && m@ == "unsupported schema version "@ + signed_decimal(version as int)
                + "; expected "@ + signed_decimal(SCHEMA_VERSION as int)),
        },
{
    if version == SCHEMA_VERSION {
        Ok(())
    } else {
        let head = join_text("unsupported schema version ", decimal_i64(version).as_str());
        let head = join_text(head.as_str(), "; expected ");
        Err(StoreError::InvalidPersistedData(join_text(head.as_str(), decimal_i64(SCHEMA_VERSION).as_str())))
    }
}

/// A new boot generation must advance beyond the stored one. Returns the value to store.
pub fn boot_generation_update(requested: BootGeneration, current: BootGeneration) -> (r: Result<
    i64,
    StoreError,
>)
    ensures
        match r {
            Ok(v) => requested@ <= i64::MAX && current@ < requested@ && v as int == requested@ as int,
            Err(e) => if requested@ > i64::MAX || current@ > i64::MAX {
                e matches StoreError::InvalidMutation(m) && m@ == "boot generation"@
                    + " does not fit in SQLite INTEGER"@
            } else {
                requested@ <= current@ && (e matches StoreError::InvalidMutation(m) && m@
                    == "boot generation must advance beyond the current generation"@)
            },
        },
{
    let requested = match checked_i64(requested.value(), "boot generation") {
        Ok(v) => v,
        Err(e) => {
            return Err(e);
        },
    };
    let current = match checked_i64(current.value(), "boot generation") {
        Ok(v) => v,
        Err(e) => {
            return Err(e);
        },
    };
    if requested <= current {
        return Err(
            StoreError::InvalidMutation(
                "boot generation must advance beyond the current generation".to_owned(),
            ),
        );
    }
    Ok(requested)
}

/// The unsigned reading of a stored INTEGER, as Rust's `as u64` reinterprets its bits.
pub open spec fn unsigned_bits(v: i64) -> int {
    if v >= 0 {
        v as int
    } else {
        v + 0x1_0000_0000_0000_0000
    }
}

fn unsigned_bits_exec(v: i64) -> (r: i128)
    ensures
        r == unsigned_bits(v),
{
    if v >= 0 {
        v as i128
    } else {
        v as i128 + 0x1_0000_0000_0000_0000i128
    }
}

/// A goal revision is accepted only at its stored version and only as the exact
/// next revision. Returns the goal's next state version.
pub fn goal_revision_update(
    goal: &GoalSpec,
    expected_state_version: i64,
    current_version: i64,
    current_revision: i64,
) -> (r: Result<i64, StoreError>)
    ensures
        ({
            let revision = goal@.revision@;
            let goal_id = goal@.goal_id@;
            match r {
                Ok(v) => {
                    &&& expected_state_version == current_version
                    &&& current_revision < i64::MAX
                    &&& revision as int == unsigned_bits((current_revision + 1) as i64)
                    &&& expected_state_version < i64::MAX
                    &&& v == expected_state_version + 1
                },
                Err(e) => if expected_state_version != current_version {
                    e matches StoreError::VersionConflict { entity, id, expected, actual } && entity@
                        == "goal"@ && id@ == goal_id && expected == expected_state_version && actual
                        == current_version
                } else if current_revision == i64::MAX {
                    e matches StoreError::InvalidMutation(m) && m@
                        == "goal revision space is exhausted"@
                } else if revision as int != unsigned_bits((current_revision + 1) as i64) {
                    if revision as int <= unsigned_bits(current_revision) {
                        e matches StoreError::DuplicateImmutableRevision { goal_id: g, revision: n }
                            && g@ == goal_id && n == revision
                    } else {
                        e matches StoreError::InvalidMutation(m) && m@ == "goal revision must be "@
                            + signed_decimal(current_revision + 1) + ", received "@
                            + decimal_digits(revision as nat)
                    }
                } else {
                    expected_state_version == i64::MAX && (e matches StoreError::InvalidMutation(m)
                        && m@ == "state version space is exhausted"@)
                },
            }
        }),
{
    let goal_text = goal.goal_id().as_str().to_owned();
    if let Err(e) = ensure_version("goal", goal_text, expected_state_version, current_version) {
        return Err(e);
    }
    if current_revision == i64::MAX {
        return Err(StoreError::InvalidMutation("goal revision space is exhausted".to_owned()));
    }
    let expected_revision = current_revision + 1;
    let revision = goal.revision().value();
    if revision as i128 != unsigned_bits_exec(expected_revision) {
        if revision as i128 <= unsigned_bits_exec(current_revision) {
            return Err(
                StoreError::DuplicateImmutableRevision {
                    goal_id: goal.goal_id().as_str().to_owned(),
                    revision,
                },
            );
        }
        let head = join_text("goal revision must be ", decimal_i64(expected_revision).as_str());
        let head = join_text(head.as_str(), ", received ");
        return Err(StoreError::InvalidMutation(join_text(head.as_str(), decimal_u64(revision).as_str())));
    }
    next_state_version(expected_state_version)
}

/// `e` reports that `field` does not fit in an SQLite INTEGER.
pub open spec fn is_too_large(e: StoreError, field: Seq<char>) -> bool {
    e matches StoreError::InvalidMutation(m) && m@ == field + " does not fit in SQLite INTEGER"@
}

/// `e` rejects guard `guard` for `reason`.
pub open spec fn is_guard_invalid(e: StoreError, guard: Seq<char>, reason: Seq<char>) -> bool {
    e matches StoreError::GuardInvalid { guard_id, reason: r } && guard_id@ == guard && r@ == reason
}

/// `e` reports that the claim of commitment `commitment` does not match, for `reason`.
pub open spec fn is_claim_mismatch(e: StoreError, commitment: Seq<char>, reason: Seq<char>) -> bool {
    e matches StoreError::ClaimMismatch { commitment_id, reason: r } && commitment_id@ == commitment
        && r@ == reason
}

/// `e` reports that the claim lease of commitment `commitment` has ended.
pub open spec fn is_lease_expired(e: StoreError, commitment: Seq<char>) -> bool {
    e matches StoreError::LeaseExpired { commitment_id } && commitment_id@ == commitment
}

/// `e` reports that no `entity` named `id` exists.
pub open spec fn is_not_found(e: StoreError, entity: Seq<char>, id: Seq<char>) -> bool {
    e matches StoreError::NotFound { entity: n, id: i } && n@ == entity && i@ == id
}

/// The stored row of the commitment that a guard is requested for.
pub struct GuardCommitmentRow {
    pub goal_id: String,
    /// The state column, parsed from its serialised form; `Err` carries the parser's message.
    pub state: Result<StoredCommitmentState, String>,
    pub outstanding_action: Option<String>,
}

/// The stored claim of a commitment.
pub struct StoredClaim {
    pub worker_id: String,
    pub claim_epoch: i64,
    pub last_heartbeat: i64,
    pub boot_generation: i64,
}

/// What issuing a guard writes, once every check has passed.
#[derive(Debug)]
pub struct GuardIssuePlan {
    pub now_ticks: i64,
    pub claim_epoch_ticks: i64,
    pub boot_generation_ticks: i64,
    pub reservation_expires_at: MonotonicInstant,
    pub reservation_ticks: i64,
}

/// The earlier of two instants.
pub open spec fn earlier(a: int, b: int) -> int {
    if a <= b {
        a
    } else {
        b
    }
}

/// The answer to a guard issue request, given the commitment's stored row, its stored
/// claim and the store's current boot generation. A guard is issued only for a claimed
/// or working commitment with no outstanding action, whose stored claim belongs to the
/// requesting worker at the requested epoch, in the current boot generation, with a
/// lease that has not ended; the reservation lasts for the guard's time to live but
/// never past the lease.
pub open spec fn guard_issue_outcome(
    req: GuardIssueRequest,
    commitment: Option<GuardCommitmentRow>,
    claim: Option<StoredClaim>,
    current_boot: Result<BootGeneration, StoreError>,
    r: Result<GuardIssuePlan, StoreError>,
) -> bool {
    let gid = req.guard_id@;
    let cid = req.commitment_id@;
    if req.now@ > i64::MAX {
        r matches Err(e) && is_too_large(e, "current monotonic instant"@)
    } else if req.claim_epoch@ > i64::MAX {
        r matches Err(e) && is_too_large(e, "claim epoch"@)
    } else if req.boot_generation@ > i64::MAX {
        r matches Err(e) && is_too_large(e, "boot generation"@)
    } else {
        match commitment {
            None => r matches Err(e) && is_not_found(e, "commitment"@, cid),
            Some(row) => if !(row.state matches Ok(s) && state_restorable(s@)) {
                r matches Err(e) && e is InvalidPersistedData
            } else if !(row.state->Ok_0@ is Claimed || row.state->Ok_0@ is Working) {
                r matches Err(e) && is_guard_invalid(
                    e,
                    gid,
                    "commitment is in "@ + state_description(row.state->Ok_0@)
                        + ", not a work-owning state"@,
                )
            } else if row.outstanding_action is Some {
                r matches Err(e) && is_guard_invalid(
                    e,
                    gid,
                    "commitment already has an outstanding action"@,
                )
            } else {
                match claim {
                    None => r matches Err(e) && is_claim_mismatch(
                        e,
                        cid,
                        "commitment has no current claim"@,
                    ),
                    Some(c) => if c.worker_id@ != req.worker_id@ {
                        r matches Err(e) && is_claim_mismatch(
                            e,
                            cid,
                            "claim belongs to worker "@ + c.worker_id@ + ", not "@ + req.worker_id@,
                        )
                    } else if c.claim_epoch as int != req.claim_epoch@ as int {
                        r matches Err(e) && is_claim_mismatch(
                            e,
                            cid,
                            "claim epoch is "@ + signed_decimal(c.claim_epoch as int) + ", not "@
                                + decimal_digits(req.claim_epoch@ as nat),
                        )
                    } else {
                        match current_boot {
                            Err(e) => r == Err::<GuardIssuePlan, StoreError>(e),
                            Ok(current) => if current@ > i64::MAX {
                                r matches Err(e) && is_too_large(e, "boot generation"@)
                            } else if c.boot_generation as int != current@ as int
                                || req.boot_generation@ != current@ {
                                r matches Err(e) && is_claim_mismatch(
                                    e,
                                    cid,
                                    "claim and guard request are not from the current boot generation"@,
                                )
                            } else if c.last_heartbeat < 0 {
                                r == Err::<GuardIssuePlan, StoreError>(
                                    StoreError::Domain(
                                        DomainError::InvalidNumericValue {
                                            kind: "monotonic instant",
                                        },
                                    ),
                                )
                            } else if c.last_heartbeat + req.claim_lease_duration@ > u64::MAX {
                                r == Err::<GuardIssuePlan, StoreError>(
                                    StoreError::Domain(DomainError::TimeOverflow),
                                )
                            } else if c.last_heartbeat + req.claim_lease_duration@ <= req.now@ {
                                r matches Err(e) && is_lease_expired(e, cid)
                            } else if req.now@ + req.guard_ttl@ > u64::MAX {
                                r == Err::<GuardIssuePlan, StoreError>(
                                    StoreError::Domain(DomainError::TimeOverflow),
                                )
                            } else {
                                let reservation = earlier(
                                    req.now@ + req.guard_ttl@,
                                    c.last_heartbeat + req.claim_lease_duration@,
                                );
                                if reservation > i64::MAX {
                                    r matches Err(e) && is_too_large(
                                        e,
                                        "guard reservation expiration"@,
                                    )
                                } else {
                                    r matches Ok(plan) && plan.now_ticks as int == req.now@ as int
                                        && plan.claim_epoch_ticks as int == req.claim_epoch@ as int
                                        && plan.boot_generation_ticks as int
                                        == req.boot_generation@ as int
                                        && plan.reservation_expires_at@ as int == reservation
                                        && plan.reservation_ticks as int == reservation
                                }
                            },
                        }
                    },
                }
            },
        }
    }
}

/// The fencing and lease rules of guard issuance: whenever an issue request is allowed,
/// the commitment is claimed or working with no outstanding action, the stored claim is
/// the requester's at the requested epoch and in the current boot generation, and the
/// reservation ends after `now`, no later than `now + guard_ttl`, and no later than the
/// claim's lease deadline (its last heartbeat plus the lease duration).
pub proof fn lemma_issued_reservation_stays_within_the_lease(
    req: GuardIssueRequest,
    commitment: Option<GuardCommitmentRow>,
    claim: Option<StoredClaim>,
    current_boot: Result<BootGeneration, StoreError>,
    plan: GuardIssuePlan,
)
    requires
        req.guard_ttl@ > 0,
        guard_issue_outcome(req, commitment, claim, current_boot, Ok(plan)),
    ensures
        commitment matches Some(row) && (row.state matches Ok(s) && (s@ is Claimed || s@ is Working))
            && row.outstanding_action is None,
        claim matches Some(c) && c.worker_id@ == req.worker_id@ && c.claim_epoch as int
            == req.claim_epoch@ as int,
        claim matches Some(c) && (current_boot matches Ok(b) && c.boot_generation as int
            == b@ as int && req.boot_generation@ == b@),
        req.now@ < plan.reservation_expires_at@,
        plan.reservation_expires_at@ <= req.now@ + req.guard_ttl@,
        claim matches Some(c) && plan.reservation_expires_at@ <= c.last_heartbeat
            + req.claim_lease_duration@,
{
}

/// Decides a guard issue request against the commitment's stored row, its stored claim
/// and the current boot generation; on success returns what the issuance writes.
pub fn plan_guard_issue(
    request: &GuardIssueRequest,
    commitment: Option<GuardCommitmentRow>,
    claim: Option<StoredClaim>,
    current_boot: Result<BootGeneration, StoreError>,
) -> (r: Result<GuardIssuePlan, StoreError>)
    ensures
        guard_issue_outcome(*request, commitment, claim, current_boot, r),
{
    let now_ticks = match checked_i64(request.now.ticks(), "current monotonic instant") {
        Ok(v) => v,
        Err(e) => {
            return Err(e);
        },
    };
    let claim_epoch_ticks = match checked_i64(request.claim_epoch.value(), "claim epoch") {
        Ok(v) => v,
        Err(e) => {
            return Err(e);
        },
    };
    let boot_generation_ticks = match checked_i64(
        request.boot_generation.value(),
        "boot generation",
    ) {
        Ok(v) => v,
        Err(e) => {
            return Err(e);
        },
    };
    let row = match commitment {
        Some(row) => row,
        None => {
            return Err(not_found("commitment", request.commitment_id.as_str().to_owned()));
        },
    };
    let GuardCommitmentRow { goal_id: _, state, outstanding_action } = row;
    let state = match decode_commitment_state(state) {
        Ok(s) => s,
        Err(e) => {
            return Err(e);
        },
    };
    if !matches!(state, CommitmentState::Claimed | CommitmentState::Working) {
        let shown = describe_state(&state);
        let reason = join_text("commitment is in ", shown.as_str());
        let reason = join_text(reason.as_str(), ", not a work-owning state");
        return Err(
            StoreError::GuardInvalid { guard_id: request.guard_id.as_str().to_owned(), reason },
        );
    }
    if outstanding_action.is_some() {
        return Err(
            StoreError::GuardInvalid {
                guard_id: request.guard_id.as_str().to_owned(),
                reason: "commitment already has an outstanding action".to_owned(),
            },
        );
    }
    let claim = match claim {
        Some(c) => c,
        None => {
            return Err(
                StoreError::ClaimMismatch {
                    commitment_id: request.commitment_id.as_str().to_owned(),
                    reason: "commitment has no current claim".to_owned(),
                },
            );
        },
    };
    if !text_eq(claim.worker_id.as_str(), request.worker_id.as_str()) {
        let reason = join_text("claim belongs to worker ", claim.worker_id.as_str());
        let reason = join_text(reason.as_str(), ", not ");
        let reason = join_text(reason.as_str(), request.worker_id.as_str());
        return Err(
            StoreError::ClaimMismatch {
                commitment_id: request.commitment_id.as_str().to_owned(),
                reason,
            },
        );
    }
    if claim.claim_epoch != claim_epoch_ticks {
        let reason = join_text("claim epoch is ", decimal_i64(claim.claim_epoch).as_str());
        let reason = join_text(reason.as_str(), ", not ");
        let reason = join_text(reason.as_str(), decimal_u64(request.claim_epoch.value()).as_str());
        return Err(
            StoreError::ClaimMismatch {
                commitment_id: request.commitment_id.as_str().to_owned(),
                reason,
            },
        );
    }
    let current = match current_boot {
        Ok(g) => g,
        Err(e) => {
            return Err(e);
        },
    };
    let current_ticks = match checked_i64(current.value(), "boot generation") {
        Ok(v) => v,
        Err(e) => {
            return Err(e);
        },
    };
    if claim.boot_generation != current_ticks || request.boot_generation.value() != current.value() {
        return Err(
            StoreError::ClaimMismatch {
                commitment_id: request.commitment_id.as_str().to_owned(),
                reason: "claim and guard request are not from the current boot generation".to_owned(),
            },
        );
    }
    let last_heartbeat = match MonotonicInstant::try_from_raw(claim.last_heartbeat) {
        Ok(t) => t,
        Err(e) => {
            return Err(StoreError::Domain(e));
        },
    };
    let claim_lease_deadline = match request.claim_lease_duration.deadline_from(last_heartbeat) {
        Ok(t) => t,
        Err(e) => {
            return Err(StoreError::Domain(e));
        },
    };
    if claim_lease_deadline.ticks() <= request.now.ticks() {
        return Err(
            StoreError::LeaseExpired { commitment_id: request.commitment_id.as_str().to_owned() },
        );
    }
    let reservation_expires_at = match ExecutionGuard::reservation_deadline(
        request.now,
        request.guard_ttl,
        claim_lease_deadline,
    ) {
        Ok(t) => t,
        Err(e) => {
            return Err(StoreError::Domain(e));
        },
    };
    let reservation_ticks = match checked_i64(
        reservation_expires_at.ticks(),
        "guard reservation expiration",
    ) {
        Ok(v) => v,
        Err(e) => {
            return Err(e);
        },
    };
    Ok(
        GuardIssuePlan {
            now_ticks,
            claim_epoch_ticks,
            boot_generation_ticks,
            reservation_expires_at,
            reservation_ticks,
        },
    )
}

/// A scope requested for a new guard may not be locked by any other guard: the first
/// requested scope with a lock owner is reported. Each entry pairs a requested scope
/// with the guard that holds or reserves it, if any.
pub fn check_scope_locks(scope_locks: &Vec<(ScopeKey, Option<String>)>) -> (r: Result<(), StoreError>)
    ensures
        match r {
            Ok(()) => forall|i: int| 0 <= i < scope_locks@.len() ==> (#[trigger] scope_locks@[i]).1 is None,
            Err(e) => exists|i: int|
                #![trigger scope_locks@[i]]
                {
                    &&& 0 <= i < scope_locks@.len()
                    &&& forall|j: int| 0 <= j < i ==> (#[trigger] scope_locks@[j]).1 is None
                    &&& scope_locks@[i].1 matches Some(owner) && e matches StoreError::ScopeLocked {
                        scope_key,
                        guard_id,
                    } && scope_key@ == scope_locks@[i].0@ && guard_id@ == owner@
                },
        },
{
    let mut i: usize = 0;
    while i < scope_locks.len()
        invariant
            i <= scope_locks.len(),
            forall|j: int| 0 <= j < i ==> (#[trigger] scope_locks@[j]).1 is None,
        decreases scope_locks.len() - i,
    {
        let entry = &scope_locks[i];
        match &entry.1 {
            Some(owner) => {
                return Err(
                    StoreError::ScopeLocked {
                        scope_key: entry.0.as_str().to_owned(),
                        guard_id: owner.clone(),
                    },
                );
            },
            None => {},
        }
        i = i + 1;
    }
    Ok(())
}

/// The reserved lock found for a scope, if any, is held by a reservation whose deadline
/// (in monotonic ticks) has passed at `now_ticks`. A lock without a deadline never expires.
pub open spec fn reservation_expired(lock: Option<(String, Option<i64>)>, now_ticks: i64) -> bool {
    match lock {
        Some((_, Some(deadline))) => deadline <= now_ticks,
        _ => false,
    }
}

/// The lock is an expired reservation held by the guard with text `guard`.
pub open spec fn names_guard(
    lock: Option<(String, Option<i64>)>,
    now_ticks: i64,
    guard: Seq<char>,
) -> bool {
    &&& reservation_expired(lock, now_ticks)
    &&& lock matches Some(l) && l.0@ == guard
}

/// Lock `a` is the first of `locks` that is an expired reservation held by `guard`.
pub open spec fn first_named_at(
    locks: Seq<Option<(String, Option<i64>)>>,
    now_ticks: i64,
    guard: Seq<char>,
    a: int,
) -> bool {
    &&& 0 <= a < locks.len()
    &&& names_guard(locks[a], now_ticks, guard)
    &&& forall|b: int| 0 <= b < a ==> !names_guard(#[trigger] locks[b], now_ticks, guard)
}

/// Some lock is an expired reservation held by the guard with text `guard`.
pub open spec fn named_among(
    locks: Seq<Option<(String, Option<i64>)>>,
    now_ticks: i64,
    guard: Seq<char>,
) -> bool {
    exists|i: int| 0 <= i < locks.len() && names_guard(#[trigger] locks[i], now_ticks, guard)
}

/// The distinct guards whose reservations have expired at `now_ticks`, among the reserved
/// lock found for each requested scope (its guard and its deadline), in the order they
/// are first found.
pub fn expired_guard_ids(locks: &Vec<Option<(String, Option<i64>)>>, now_ticks: i64) -> (r: Vec<
    String,
>)
    ensures
        forall|i: int, j: int| 0 <= i < j < r@.len() ==> (#[trigger] r@[i])@ != (#[trigger] r@[j])@,
        forall|i: int|
            0 <= i < locks@.len() && reservation_expired(#[trigger] locks@[i], now_ticks)
                ==> exists|j: int|
                0 <= j < r@.len() && names_guard(locks@[i], now_ticks, (#[trigger] r@[j])@),
        forall|j: int| 0 <= j < r@.len() ==> named_among(locks@, now_ticks, (#[trigger] r@[j])@),
        forall|j: int, k: int, a: int, b: int|
            0 <= j < k < r@.len() && #[trigger] first_named_at(locks@, now_ticks, r@[j]@, a)
                && #[trigger] first_named_at(locks@, now_ticks, r@[k]@, b) ==> a < b,
{
    let mut found: Vec<String> = Vec::new();
    let ghost mut origin: Seq<int> = Seq::empty();
    let mut i: usize = 0;
    while i < locks.len()
        invariant
            i <= locks.len(),
            origin.len() == found@.len(),
            forall|a: int, b: int|
                0 <= a < b < found@.len() ==> (#[trigger] found@[a])@ != (#[trigger] found@[b])@,
            forall|k: int|
                0 <= k < i && reservation_expired(#[trigger] locks@[k], now_ticks) ==> exists|
                    j: int,
                | 0 <= j < found@.len() && names_guard(locks@[k], now_ticks, (#[trigger] found@[j])@),
            forall|j: int|
                0 <= j < found@.len() ==> 0 <= #[trigger] origin[j] < i && names_guard(
                    locks@[origin[j]],
                    now_ticks,
                    found@[j]@,
                ),
            forall|j: int, b: int|
                0 <= j < found@.len() && 0 <= b < origin[j] ==> !names_guard(
                    #[trigger] locks@[b],
                    now_ticks,
                    (#[trigger] found@[j])@,
                ),
            forall|j: int, k: int| 0 <= j < k < found@.len() ==> #[trigger] origin[j] < #[trigger] origin[k],
        decreases locks.len() - i,
    {
        let expired: Option<&String> = match &locks[i] {
            Some(lock) => match lock.1 {
                Some(deadline) => if deadline <= now_ticks {
                    Some(&lock.0)
                } else {
                    None
                },
                None => None,
            },
            None => None,
        };
        match expired {
            Some(guard) => {
                assert(names_guard(locks@[i as int], now_ticks, guard@));
                let mut seen = false;
                let mut j: usize = 0;
                while j < found.len()
                    invariant
                        j <= found.len(),
                        seen <==> exists|k: int| 0 <= k < j && (#[trigger] found@[k])@ == guard@,
                    decreases found.len() - j,
                {
                    if found[j] == *guard {
                        seen = true;
                    }
                    j = j + 1;
                }
                let ghost before = found@;
                let ghost before_origin = origin;
                if !seen {
                    proof {
                        assert forall|b: int| 0 <= b < i implies !names_guard(
                            #[trigger] locks@[b],
                            now_ticks,
                            guard@,
                        ) by {
                            if names_guard(locks@[b], now_ticks, guard@) {
                                let j0 = choose|j: int|
                                    0 <= j < found@.len() && names_guard(
                                        locks@[b],
                                        now_ticks,
                                        (#[trigger] found@[j])@,
                                    );
                                assert(found@[j0]@ == guard@);
                            }
                        }
                    }
                    found.push(guard.clone());
                    proof {
                        origin = origin.push(i as int);
                        assert forall|j: int, b: int|
                            0 <= j < found@.len() && 0 <= b < origin[j] implies !names_guard(
                            #[trigger] locks@[b],
                            now_ticks,
                            (#[trigger] found@[j])@,
                        ) by {
                            if j < before.len() {
                                assert(found@[j] == before[j]);
                                assert(origin[j] == before_origin[j]);
                            } else {
                                assert(found@[j]@ == guard@);
                            }
                        }
                        assert forall|j: int, k: int| 0 <= j < k < found@.len() implies #[trigger] origin[j]
                            < #[trigger] origin[k] by {
                            assert(origin[j] == before_origin[j]);
                            if k < before.len() {
                                assert(origin[k] == before_origin[k]);
                            }
                        }
                        assert(found@[found@.len() - 1]@ == guard@);
                        assert(names_guard(locks@[i as int], now_ticks, found@[found@.len() - 1]@));
                        assert forall|j: int| 0 <= j < found@.len() implies 0 <= #[trigger] origin[j]
                            < i + 1 && names_guard(locks@[origin[j]], now_ticks, found@[j]@) by {
                            if j < before.len() {
                                assert(found@[j] == before[j]);
                                assert(origin[j] == before_origin[j]);
                            }
                        }
                        assert forall|k: int|
                            0 <= k < i + 1 && reservation_expired(
                                #[trigger] locks@[k],
                                now_ticks,
                            ) implies exists|j: int|
                            0 <= j < found@.len() && names_guard(
                                locks@[k],
                                now_ticks,
                                (#[trigger] found@[j])@,
                            ) by {
                            if k < i {
                                let j0 = choose|j: int|
                                    0 <= j < before.len() && names_guard(
                                        locks@[k],
                                        now_ticks,
                                        (#[trigger] before[j])@,
                                    );
                                assert(found@[j0] == before[j0]);
                            } else {
                                assert(names_guard(
                                    locks@[k],
                                    now_ticks,
                                    found@[found@.len() - 1]@,
                                ));
                            }
                        }
                    }
                } else {
                    proof {
                        let j0 = choose|k: int|
                            0 <= k < found@.len() && (#[trigger] found@[k])@ == guard@;
                        assert(names_guard(locks@[i as int], now_ticks, found@[j0]@));
                    }
                }
            },
            None => {
                assert(!reservation_expired(locks@[i as int], now_ticks));
            },
        }
        i = i + 1;
    }
    proof {
        assert forall|j: int| 0 <= j < found@.len() implies named_among(
            locks@,
            now_ticks,
            (#[trigger] found@[j])@,
        ) by {
            let k = origin[j];
            assert(names_guard(locks@[k], now_ticks, found@[j]@));
        }
        lemma_first_found_order(locks@, now_ticks, found@, origin);
    }
    found
}

/// Guards listed by the position of the lock where each was first found come out in
/// the order of those first finds.
proof fn lemma_first_found_order(
    locks: Seq<Option<(String, Option<i64>)>>,
    now_ticks: i64,
    found: Seq<String>,
    origin: Seq<int>,
)
    requires
        origin.len() == found.len(),
        forall|j: int|
            0 <= j < found.len() ==> 0 <= #[trigger] origin[j] < locks.len() && names_guard(
                locks[origin[j]],
                now_ticks,
                found[j]@,
            ),
        forall|j: int, b: int|
            0 <= j < found.len() && 0 <= b < origin[j] ==> !names_guard(
                #[trigger] locks[b],
                now_ticks,
                (#[trigger] found[j])@,
            ),
        forall|j: int, k: int| 0 <= j < k < found.len() ==> #[trigger] origin[j] < #[trigger] origin[k],
    ensures
        forall|j: int, k: int, a: int, b: int|
            0 <= j < k < found.len() && #[trigger] first_named_at(locks, now_ticks, found[j]@, a)
                && #[trigger] first_named_at(locks, now_ticks, found[k]@, b) ==> a < b,
{
    assert forall|j: int, k: int, a: int, b: int|
        0 <= j < k < found.len() && #[trigger] first_named_at(locks, now_ticks, found[j]@, a)
            && #[trigger] first_named_at(locks, now_ticks, found[k]@, b) implies a < b by {
        lemma_first_named_at_origin(locks, now_ticks, found, origin, j, a);
        lemma_first_named_at_origin(locks, now_ticks, found, origin, k, b);
        assert(origin[j] < origin[k]);
    }
}

/// The first lock naming a listed guard is the one it was listed from.
proof fn lemma_first_named_at_origin(
    locks: Seq<Option<(String, Option<i64>)>>,
    now_ticks: i64,
    found: Seq<String>,
    origin: Seq<int>,
    j: int,
    a: int,
)
    requires
        origin.len() == found.len(),
        0 <= j < found.len(),
        0 <= origin[j] < locks.len(),
        names_guard(locks[origin[j]], now_ticks, found[j]@),
        forall|b: int| 0 <= b < origin[j] ==> !names_guard(#[trigger] locks[b], now_ticks, found[j]@),
        first_named_at(locks, now_ticks, found[j]@, a),
    ensures
        a == origin[j],
{
    if a < origin[j] {
        assert(!names_guard(locks[a], now_ticks, found[j]@));
    } else if a > origin[j] {
        assert(!names_guard(locks[origin[j]], now_ticks, found[j]@));
    }
}

/// The first check of an admission request, made against the guard as stored. An
/// admission already made for the same action answers `AlreadyAdmitted` when the scope
/// set is unchanged; `Ok(None)` means the guard is issued and the admission goes on.
pub fn admission_precheck(
    guard_id: &GuardId,
    state: &GuardState,
    stored_scopes: &ScopeSet,
    requested_scopes: &ScopeSet,
    action_ref: &TethersActionRef,
) -> (r: Result<Option<GuardAdmission>, StoreError>)
    ensures
        match state@ {
            GuardStateView::Issued => r == Ok::<Option<GuardAdmission>, StoreError>(None),
            GuardStateView::Admitted(existing) => if existing == action_ref@ {
                if same_key_texts(stored_scopes@, requested_scopes@) {
                    r == Ok::<Option<GuardAdmission>, StoreError>(
                        Some(GuardAdmission::AlreadyAdmitted),
                    )
                } else {
                    r matches Err(e) && is_guard_invalid(
                        e,
                        guard_id@,
                        "admitted guard scope set cannot be changed"@,
                    )
                }
            } else {
                r matches Err(e) && is_guard_invalid(
                    e,
                    guard_id@,
                    "guard is already admitted for another action"@,
                )
            },
            _ => r matches Err(e) && is_guard_invalid(
                e,
                guard_id@,
                "guard is in terminal state "@ + guard_state_description(state@),
            ),
        },
{
    match state {
        GuardState::Issued => Ok(None),
        GuardState::Admitted { action_ref: existing } => {
            if existing.same_as(action_ref) {
                if stored_scopes.same_as(requested_scopes) {
                    Ok(Some(GuardAdmission::AlreadyAdmitted))
                } else {
                    Err(
                        StoreError::GuardInvalid {
                            guard_id: guard_id.as_str().to_owned(),
                            reason: "admitted guard scope set cannot be changed".to_owned(),
                        },
                    )
                }
            } else {
                Err(
                    StoreError::GuardInvalid {
                        guard_id: guard_id.as_str().to_owned(),
                        reason: "guard is already admitted for another action".to_owned(),
                    },
                )
            }
        },
        _ => {
            let shown = describe_guard_state(state);
            Err(
                StoreError::GuardInvalid {
                    guard_id: guard_id.as_str().to_owned(),
                    reason: join_text("guard is in terminal state ", shown.as_str()),
                },
            )
        },
    }
}

/// The reservation is live at `now`: it has an expiry and the expiry is later than `now`.
pub open spec fn reservation_live(row: GuardRow, now: MonotonicInstant) -> bool {
    row.reservation_expires_at matches Some(deadline) && now@ < deadline@
}

fn reservation_is_live(row: &GuardRow, now: MonotonicInstant) -> (r: bool)
    ensures
        r == reservation_live(*row, now),
{
    match row.reservation_expires_at {
        Some(deadline) => now.ticks() < deadline.ticks(),
        None => false,
    }
}

/// The answer to the second check of an admission request: the guard is still issued,
/// the requested scope set is exactly the issued one, every issued scope is still
/// reserved by this guard, and the reservation has not ended.
pub open spec fn reservation_check_outcome(
    guard_id: GuardId,
    guard: GuardRow,
    stored_scopes: ScopeSet,
    requested_scopes: ScopeSet,
    locks_reserved: Seq<bool>,
    now: MonotonicInstant,
    r: Result<(), StoreError>,
) -> bool {
    if !(guard.state@ is Issued) {
        r matches Err(e) && is_lease_expired(e, guard.commitment_id@)
    } else if !same_key_texts(stored_scopes@, requested_scopes@) {
        r matches Err(e) && is_guard_invalid(
            e,
            guard_id@,
            "admission scope set does not exactly match issuance"@,
        )
    } else if exists|i: int| 0 <= i < locks_reserved.len() && !(#[trigger] locks_reserved[i]) {
        r matches Err(e) && is_guard_invalid(
            e,
            guard_id@,
            "reserved scope lock is missing or owned by another guard"@,
        )
    } else if !reservation_live(guard, now) {
        r matches Err(e) && is_lease_expired(e, guard.commitment_id@)
    } else {
        r is Ok
    }
}

/// The second check of an admission request, made after expired reservations on its
/// scopes have been invalidated.
pub fn admission_reservation_check(
    guard_id: &GuardId,
    guard: &GuardRow,
    stored_scopes: &ScopeSet,
    requested_scopes: &ScopeSet,
    locks_reserved: &Vec<bool>,
    now: MonotonicInstant,
) -> (r: Result<(), StoreError>)
    ensures
        reservation_check_outcome(
            *guard_id,
            *guard,
            *stored_scopes,
            *requested_scopes,
            locks_reserved@,
            now,
            r,
        ),
{
    if !matches!(guard.state, GuardState::Issued) {
        return Err(StoreError::LeaseExpired { commitment_id: guard.commitment_id.as_str().to_owned() });
    }
    if !stored_scopes.same_as(requested_scopes) {
        return Err(
            StoreError::GuardInvalid {
                guard_id: guard_id.as_str().to_owned(),
                reason: "admission scope set does not exactly match issuance".to_owned(),
            },
        );
    }
    let mut i: usize = 0;
    while i < locks_reserved.len()
        invariant
            i <= locks_reserved.len(),
            guard.state@ is Issued,
            same_key_texts(stored_scopes@, requested_scopes@),
            forall|j: int| 0 <= j < i ==> #[trigger] locks_reserved@[j],
        decreases locks_reserved.len() - i,
    {
        if !locks_reserved[i] {
            assert(!locks_reserved@[i as int]);
            return Err(
                StoreError::GuardInvalid {
                    guard_id: guard_id.as_str().to_owned(),
                    reason: "reserved scope lock is missing or owned by another guard".to_owned(),
                },
            );
        }
        i = i + 1;
    }
    if !reservation_is_live(guard, now) {
        return Err(StoreError::LeaseExpired { commitment_id: guard.commitment_id.as_str().to_owned() });
    }
    Ok(())
}

/// The stored commitment of a guard being admitted, joined with its stored claim.
pub struct AdmissionCommitmentRow {
    pub goal_id: String,
    /// The state column, parsed from its serialised form; `Err` carries the parser's message.
    pub state: Result<StoredCommitmentState, String>,
    pub outstanding_action: Option<String>,
    pub state_version: i64,
    pub claim_epoch: Option<i64>,
    pub worker: Option<String>,
    pub boot_generation: Option<i64>,
}

/// What admitting a guard writes, once every check has passed.
#[derive(Debug)]
pub struct AdmissionPlan {
    pub goal_id: GoalId,
    /// The commitment's version as read, which the write must still find.
    pub expected_commitment_version: i64,
    pub next_commitment_version: i64,
    pub next_guard_version: i64,
}

/// The answer to the last check of an admission, made against the guard's commitment
/// and its claim: the commitment must be working with no outstanding action, and its
/// claim must be the one the guard was issued under, in the current boot generation.
pub open spec fn admission_outcome(
    guard_id: GuardId,
    guard: GuardRow,
    commitment: Option<AdmissionCommitmentRow>,
    current_boot: Result<BootGeneration, StoreError>,
    r: Result<AdmissionPlan, StoreError>,
) -> bool {
    let gid = guard_id@;
    let cid = guard.commitment_id@;
    match commitment {
        None => r matches Err(e) && is_not_found(e, "commitment"@, cid),
        Some(row) => if !(row.state matches Ok(s) && state_restorable(s@)) {
            r matches Err(e) && e is InvalidPersistedData
        } else if !(row.state->Ok_0@ is Working) {
            r matches Err(e) && is_guard_invalid(
                e,
                gid,
                "commitment is in "@ + state_description(row.state->Ok_0@) + ", not WORKING"@,
            )
        } else if row.outstanding_action is Some {
            r matches Err(e) && is_guard_invalid(
                e,
                gid,
                "commitment already has an outstanding action"@,
            )
        } else {
            match row.claim_epoch {
                None => r matches Err(e) && is_claim_mismatch(
                    e,
                    cid,
                    "commitment has no current claim"@,
                ),
                Some(stored_epoch) => if guard.claim_epoch@ > i64::MAX {
                    r matches Err(e) && is_too_large(e, "claim epoch"@)
                } else if stored_epoch as int != guard.claim_epoch@ as int {
                    r matches Err(e) && is_claim_mismatch(
                        e,
                        cid,
                        "claim epoch is "@ + signed_decimal(stored_epoch as int)
                            + ", guard epoch is "@ + decimal_digits(guard.claim_epoch@ as nat),
                    )
                } else {
                    match row.worker {
                        None => r matches Err(e) && is_claim_mismatch(
                            e,
                            cid,
                            "commitment has no current claim"@,
                        ),
                        Some(worker) => if is_blank(worker@) {
                            r matches Err(StoreError::InvalidPersistedData(m)) && m@
                                == invalid_id_message("worker"@, worker@)
                        } else {
                            match current_boot {
                                Err(e) => r == Err::<AdmissionPlan, StoreError>(e),
                                Ok(current) => if current@ > i64::MAX {
                                    r matches Err(e) && is_too_large(e, "boot generation"@)
                                } else if !(row.boot_generation matches Some(b) && b as int
                                    == current@ as int) || guard.boot_generation@ != current@ {
                                    r matches Err(e) && is_claim_mismatch(
                                        e,
                                        cid,
                                        "claim and guard are not from the current boot generation"@,
                                    )
                                } else if row.state_version == i64::MAX
                                    || guard.state_version == i64::MAX {
                                    r matches Err(StoreError::InvalidMutation(m)) && m@
                                        == "state version space is exhausted"@
                                } else if is_blank(row.goal_id@) {
                                    r matches Err(StoreError::InvalidPersistedData(m)) && m@
                                        == invalid_id_message("goal"@, row.goal_id@)
                                } else {
                                    r matches Ok(plan) && plan.goal_id@ == row.goal_id@
                                        && plan.expected_commitment_version == row.state_version
                                        && plan.next_commitment_version == row.state_version + 1
                                        && plan.next_guard_version == guard.state_version + 1
                                },
                            }
                        },
                    }
                },
            }
        },
    }
}

/// The last check of an admission request, against the guard's commitment and its claim;
/// on success returns what the admission writes.
pub fn plan_admission(
    guard_id: &GuardId,
    guard: &GuardRow,
    commitment: Option<AdmissionCommitmentRow>,
    current_boot: Result<BootGeneration, StoreError>,
) -> (r: Result<AdmissionPlan, StoreError>)
    ensures
        admission_outcome(*guard_id, *guard, commitment, current_boot, r),
{
    let row = match commitment {
        Some(row) => row,
        None => {
            return Err(not_found("commitment", guard.commitment_id.as_str().to_owned()));
        },
    };
    let AdmissionCommitmentRow {
        goal_id,
        state,
        outstanding_action,
        state_version,
        claim_epoch,
        worker,
        boot_generation,
    } = row;
    let state = match decode_commitment_state(state) {
        Ok(s) => s,
        Err(e) => {
            return Err(e);
        },
    };
    if !matches!(state, CommitmentState::Working) {
        let shown = describe_state(&state);
        let reason = join_text("commitment is in ", shown.as_str());
        let reason = join_text(reason.as_str(), ", not WORKING");
        return Err(StoreError::GuardInvalid { guard_id: guard_id.as_str().to_owned(), reason });
    }
    if outstanding_action.is_some() {
        return Err(
            StoreError::GuardInvalid {
                guard_id: guard_id.as_str().to_owned(),
                reason: "commitment already has an outstanding action".to_owned(),
            },
        );
    }
    let stored_epoch = match claim_epoch {
        Some(epoch) => epoch,
        None => {
            return Err(
                StoreError::ClaimMismatch {
                    commitment_id: guard.commitment_id.as_str().to_owned(),
                    reason: "commitment has no current claim".to_owned(),
                },
            );
        },
    };
    let guard_epoch = match checked_i64(guard.claim_epoch.value(), "claim epoch") {
        Ok(v) => v,
        Err(e) => {
            return Err(e);
        },
    };
    if stored_epoch != guard_epoch {
        let reason = join_text("claim epoch is ", decimal_i64(stored_epoch).as_str());
        let reason = join_text(reason.as_str(), ", guard epoch is ");
        let reason = join_text(reason.as_str(), decimal_u64(guard.claim_epoch.value()).as_str());
        return Err(
            StoreError::ClaimMismatch {
                commitment_id: guard.commitment_id.as_str().to_owned(),
                reason,
            },
        );
    }
    let worker = match worker {
        Some(w) => w,
        None => {
            return Err(
                StoreError::ClaimMismatch {
                    commitment_id: guard.commitment_id.as_str().to_owned(),
                    reason: "commitment has no current claim".to_owned(),
                },
            );
        },
    };
    if let Err(e) = parse_id::<WorkerId>(worker, "worker") {
        return Err(e);
    }
    let current = match current_boot {
        Ok(g) => g,
        Err(e) => {
            return Err(e);
        },
    };
    let current_ticks = match checked_i64(current.value(), "boot generation") {
        Ok(v) => v,
        Err(e) => {
            return Err(e);
        },
    };
    let claim_in_current_boot = match boot_generation {
        Some(b) => b == current_ticks,
        None => false,
    };
    if !claim_in_current_boot || guard.boot_generation.value() != current.value() {
        return Err(
            StoreError::ClaimMismatch {
                commitment_id: guard.commitment_id.as_str().to_owned(),
                reason: "claim and guard are not from the current boot generation".to_owned(),
            },
        );
    }
    let next_commitment_version = match next_state_version(state_version) {
        Ok(v) => v,
        Err(e) => {
            return Err(e);
        },
    };
    let next_guard_version = match next_state_version(guard.state_version) {
        Ok(v) => v,
        Err(e) => {
            return Err(e);
        },
    };
    let goal_id = match parse_id::<GoalId>(goal_id, "goal") {
        Ok(id) => id,
        Err(e) => {
            return Err(e);
        },
    };
    Ok(
        AdmissionPlan {
            goal_id,
            expected_commitment_version: state_version,
            next_commitment_version,
            next_guard_version,
        },
    )
}

/// The fencing rules of guard admission: an admission that passes both its reservation
/// check and its commitment check binds an issued guard whose reservation is live at
/// `now`, whose requested scope set is exactly the issued one with every scope still
/// reserved, to a working commitment without an outstanding action whose stored claim is
/// at the guard's epoch and, like the guard, in the current boot generation.
pub proof fn lemma_admission_is_fenced(
    guard_id: GuardId,
    guard: GuardRow,
    stored_scopes: ScopeSet,
    requested_scopes: ScopeSet,
    locks_reserved: Seq<bool>,
    now: MonotonicInstant,
    commitment: Option<AdmissionCommitmentRow>,
    current_boot: Result<BootGeneration, StoreError>,
    plan: AdmissionPlan,
)
    requires
        reservation_check_outcome(
            guard_id,
            guard,
            stored_scopes,
            requested_scopes,
            locks_reserved,
            now,
            Ok(()),
        ),
        admission_outcome(guard_id, guard, commitment, current_boot, Ok(plan)),
    ensures
        guard.state@ is Issued,
        reservation_live(guard, now),
        same_key_texts(stored_scopes@, requested_scopes@),
        forall|i: int| 0 <= i < locks_reserved.len() ==> #[trigger] locks_reserved[i],
        commitment matches Some(row) && (row.state matches Ok(s) && s@ is Working)
            && row.outstanding_action is None,
        commitment matches Some(row) && row.claim_epoch == Some(guard.claim_epoch@ as i64),
        commitment matches Some(row) && (current_boot matches Ok(b) && row.boot_generation == Some(
            b@ as i64,
        ) && guard.boot_generation@ == b@),
{
}

/// Only an issued guard can be invalidated.
pub fn invalidation_precheck(guard_id: &GuardId, guard: &GuardRow) -> (r: Result<(), StoreError>)
    ensures
        if guard.state@ is Issued {
            r is Ok
        } else {
            r matches Err(e) && is_guard_invalid(
                e,
                guard_id@,
                "only an issued guard can be invalidated"@,
            )
        },
{
    if matches!(guard.state, GuardState::Issued) {
        Ok(())
    } else {
        Err(
            StoreError::GuardInvalid {
                guard_id: guard_id.as_str().to_owned(),
                reason: "only an issued guard can be invalidated".to_owned(),
            },
        )
    }
}

/// After expired reservations have been invalidated, the guard must still be issued
/// and its reservation still live at `now`.
pub fn require_live_reservation(guard: &GuardRow, now: MonotonicInstant) -> (r: Result<
    (),
    StoreError,
>)
    ensures
        if guard.state@ is Issued && reservation_live(*guard, now) {
            r is Ok
        } else {
            r matches Err(e) && is_lease_expired(e, guard.commitment_id@)
        },
{
    if !matches!(guard.state, GuardState::Issued) || !reservation_is_live(guard, now) {
        return Err(StoreError::LeaseExpired { commitment_id: guard.commitment_id.as_str().to_owned() });
    }
    Ok(())
}

/// The stored claim of the commitment whose guard is being invalidated, with the
/// commitment's goal.
pub struct InvalidationClaimRow {
    pub goal_id: String,
    pub worker_id: String,
    pub claim_epoch: i64,
    pub boot_generation: i64,
}

/// What invalidating a guard writes, once every check has passed.
#[derive(Debug)]
pub struct InvalidationPlan {
    pub goal_id: GoalId,
    pub next_guard_version: i64,
}

/// The answer to the claim check of an invalidation: only the current claimant, at its
/// current epoch, before its lease ends, in the current boot generation, may invalidate.
pub open spec fn invalidation_outcome(
    guard: GuardRow,
    claim: Option<InvalidationClaimRow>,
    worker_id: WorkerId,
    claim_epoch: ClaimEpoch,
    now: MonotonicInstant,
    claim_lease_deadline: MonotonicInstant,
    current_boot: Result<BootGeneration, StoreError>,
    r: Result<InvalidationPlan, StoreError>,
) -> bool {
    let cid = guard.commitment_id@;
    match claim {
        None => r matches Err(e) && is_claim_mismatch(e, cid, "commitment has no current claim"@),
        Some(c) => if claim_lease_deadline@ <= now@ {
            r matches Err(e) && is_lease_expired(e, cid)
        } else if c.worker_id@ != worker_id@ {
            r matches Err(e) && is_claim_mismatch(
                e,
                cid,
                "invalidation request does not match the current claim"@,
            )
        } else if claim_epoch@ > i64::MAX {
            r matches Err(e) && is_too_large(e, "claim epoch"@)
        } else if c.claim_epoch as int != claim_epoch@ as int {
            r matches Err(e) && is_claim_mismatch(
                e,
                cid,
                "invalidation request does not match the current claim"@,
            )
        } else {
            match current_boot {
                Err(e) => r == Err::<InvalidationPlan, StoreError>(e),
                Ok(current) => if current@ > i64::MAX {
                    r matches Err(e) && is_too_large(e, "boot generation"@)
                } else if c.boot_generation as int != current@ as int || guard.boot_generation@
                    != current@ {
                    r matches Err(e) && is_claim_mismatch(
                        e,
                        cid,
                        "claim and guard are not from the current boot generation"@,
                    )
                } else if guard.state_version == i64::MAX {
                    r matches Err(StoreError::InvalidMutation(m)) && m@
                        == "state version space is exhausted"@
                } else if is_blank(c.goal_id@) {
                    r matches Err(StoreError::InvalidPersistedData(m)) && m@ == invalid_id_message(
                        "goal"@,
                        c.goal_id@,
                    )
                } else {
                    r matches Ok(plan) && plan.goal_id@ == c.goal_id@ && plan.next_guard_version
                        == guard.state_version + 1
                },
            }
        },
    }
}

/// Only the current claimant may invalidate: an invalidation allowed by the claim check
/// comes from the stored claim's worker at its epoch, before the lease deadline, with
/// the claim and the guard in the current boot generation.
pub proof fn lemma_invalidation_is_fenced(
    guard: GuardRow,
    claim: Option<InvalidationClaimRow>,
    worker_id: WorkerId,
    claim_epoch: ClaimEpoch,
    now: MonotonicInstant,
    claim_lease_deadline: MonotonicInstant,
    current_boot: Result<BootGeneration, StoreError>,
    plan: InvalidationPlan,
)
    requires
        invalidation_outcome(
            guard,
            claim,
            worker_id,
            claim_epoch,
            now,
            claim_lease_deadline,
            current_boot,
            Ok(plan),
        ),
    ensures
        now@ < claim_lease_deadline@,
        claim matches Some(c) && c.worker_id@ == worker_id@ && c.claim_epoch as int
            == claim_epoch@ as int,
        claim matches Some(c) && (current_boot matches Ok(b) && c.boot_generation as int
            == b@ as int && guard.boot_generation@ == b@),
{
}

/// The claim check of an invalidation request; on success returns what the
/// invalidation writes.
pub fn plan_invalidation(
    guard: &GuardRow,
    claim: Option<InvalidationClaimRow>,
    worker_id: &WorkerId,
    claim_epoch: ClaimEpoch,
    now: MonotonicInstant,
    claim_lease_deadline: MonotonicInstant,
    current_boot: Result<BootGeneration, StoreError>,
) -> (r: Result<InvalidationPlan, StoreError>)
    ensures
        invalidation_outcome(
            *guard,
            claim,
            *worker_id,
            claim_epoch,
            now,
            claim_lease_deadline,
            current_boot,
            r,
        ),
{
    let claim = match claim {
        Some(c) => c,
        None => {
            return Err(
                StoreError::ClaimMismatch {
                    commitment_id: guard.commitment_id.as_str().to_owned(),
                    reason: "commitment has no current claim".to_owned(),
                },
            );
        },
    };
    if claim_lease_deadline.ticks() <= now.ticks() {
        return Err(StoreError::LeaseExpired { commitment_id: guard.commitment_id.as_str().to_owned() });
    }
    let same_worker = text_eq(claim.worker_id.as_str(), worker_id.as_str());
    let same_epoch = if same_worker {
        match checked_i64(claim_epoch.value(), "claim epoch") {
            Ok(v) => claim.claim_epoch == v,
            Err(e) => {
                return Err(e);
            },
        }
    } else {
        false
    };
    if !same_worker || !same_epoch {
        return Err(
            StoreError::ClaimMismatch {
                commitment_id: guard.commitment_id.as_str().to_owned(),
                reason: "invalidation request does not match the current claim".to_owned(),
            },
        );
    }
    let current = match current_boot {
        Ok(g) => g,
        Err(e) => {
            return Err(e);
        },
    };
    let current_ticks = match checked_i64(current.value(), "boot generation") {
        Ok(v) => v,
        Err(e) => {
            return Err(e);
        },
    };
    if claim.boot_generation != current_ticks || guard.boot_generation.value() != current.value() {
        return Err(
            StoreError::ClaimMismatch {
                commitment_id: guard.commitment_id.as_str().to_owned(),
                reason: "claim and guard are not from the current boot generation".to_owned(),
            },
        );
    }
    let next_guard_version = match next_state_version(guard.state_version) {
        Ok(v) => v,
        Err(e) => {
            return Err(e);
        },
    };
    let goal_id = match parse_id::<GoalId>(claim.goal_id, "goal") {
        Ok(id) => id,
        Err(e) => {
            return Err(e);
        },
    };
    Ok(InvalidationPlan { goal_id, next_guard_version })
}

} // verus!
