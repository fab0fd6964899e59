//! Execution guards, scope sets and reservation deadlines.
use crate::domain::{TethersOutcome, TethersOutcomeView};
use crate::error::DomainError;
use crate::ids::{CommitmentId, GuardId, ScopeKey, TethersActionRef};
use crate::text::{
    chars_lt, chars_of, lemma_seq_lt_asymmetric, lemma_seq_lt_irreflexive, lemma_seq_lt_total,
    lemma_seq_lt_transitive, seq_lt,
};
use crate::values::{BootGeneration, ClaimEpoch, MonotonicDuration, MonotonicInstant};
use vstd::prelude::*;

verus! {

/// Keys in strictly increasing order of their text: sorted and free of duplicates.
pub open spec fn strictly_sorted(s: Seq<ScopeKey>) -> bool {
    forall|i: int, j: int| 0 <= i < j < s.len() ==> seq_lt(#[trigger] s[i]@, #[trigger] s[j]@)
}

/// Some key of `s` has the text `text`.
pub open spec fn has_key_text(s: Seq<ScopeKey>, text: Seq<char>) -> bool {
    exists|i: int| 0 <= i < s.len() && #[trigger] s[i]@ == text
}

/// `out` is the canonical form of `input`: the same key texts, strictly sorted,
/// and each key one of the given ones.
pub open spec fn canonical_form_of(input: Seq<ScopeKey>, out: Seq<ScopeKey>) -> bool {
    &&& strictly_sorted(out)
    &&& forall|t: Seq<char>| has_key_text(out, t) <==> has_key_text(input, t)
    &&& forall|i: int| 0 <= i < out.len() ==> input.contains(#[trigger] out[i])
}

/// Canonicalize exact opaque keys for deterministic locking and persistence:
/// order them by their text and drop exact duplicates.
pub fn canonicalize_scope_keys(scope_keys: Vec<ScopeKey>) -> (r: Vec<ScopeKey>)
    ensures
        canonical_form_of(scope_keys@, r@),
{
    let mut out: Vec<ScopeKey> = Vec::new();
    let mut out_chars: Vec<Vec<char>> = Vec::new();
    let mut i: usize = 0;
    while i < scope_keys.len()
        invariant
            i <= scope_keys.len(),
            out.len() == out_chars.len(),
            forall|j: int| 0 <= j < out.len() ==> (#[trigger] out_chars@[j])@ == out@[j]@,
            strictly_sorted(out@),
            forall|t: Seq<char>|
                has_key_text(out@, t) <==> has_key_text(scope_keys@.take(i as int), t),
            forall|j: int| 0 <= j < out.len() ==> scope_keys@.contains(#[trigger] out@[j]),
        decreases scope_keys.len() - i,
    {
        let key = &scope_keys[i];
        let key_chars = chars_of(key.as_str());
        let mut p: usize = 0;
        while p < out.len() && chars_lt(&out_chars[p], &key_chars)
            invariant
                p <= out.len(),
                out.len() == out_chars.len(),
                forall|j: int| 0 <= j < out.len() ==> (#[trigger] out_chars@[j])@ == out@[j]@,
                key_chars@ == key@,
                forall|j: int| 0 <= j < p ==> seq_lt(#[trigger] out@[j]@, key@),
            decreases out.len() - p,
        {
            p = p + 1;
        }
        let ghost prev = out@;
        assert(scope_keys@.take(i + 1) =~= scope_keys@.take(i as int).push(*key));
        if p < out.len() && !chars_lt(&key_chars, &out_chars[p]) {
            // The key's text is already present.
            proof {
                if out@[p as int]@ != key@ {
                    lemma_seq_lt_total(out@[p as int]@, key@);
                }
                assert forall|t: Seq<char>|
                    has_key_text(out@, t) <==> has_key_text(
                        scope_keys@.take(i + 1),
                        t,
                    ) by {
                    if has_key_text(scope_keys@.take(i + 1), t) && t == key@ {
                        assert(out@[p as int]@ == t);
                    }
                    if has_key_text(scope_keys@.take(i + 1), t) && t != key@ {
                        let k = choose|k: int|
                            0 <= k < i + 1 && #[trigger] scope_keys@.take(i + 1)[k]@ == t;
                        assert(scope_keys@.take(i as int)[k]@ == t);
                    }
                    if has_key_text(scope_keys@.take(i as int), t) {
                        let k = choose|k: int|
                            0 <= k < i && #[trigger] scope_keys@.take(i as int)[k]@ == t;
                        assert(scope_keys@.take(i + 1)[k]@ == t);
                    }
                }
            }
        } else {
            proof {
                if p < out.len() {
                    lemma_seq_lt_total(out@[p as int]@, key@);
                    if out@[p as int]@ == key@ {
                        lemma_seq_lt_irreflexive(key@);
                    }
                }
            }
            out.insert(p, key.clone());
            out_chars.insert(p, key_chars);
            proof {
                assert forall|a: int, b: int| 0 <= a < b < out@.len() implies seq_lt(
                    #[trigger] out@[a]@,
                    #[trigger] out@[b]@,
                ) by {
                    if a < p && b == p {
                    } else if a < p && b > p {
                        assert(out@[b] == prev[b - 1]);
                    } else if a < p && b < p {
                    } else if a == p {
                        assert(out@[b] == prev[b - 1]);
                        if b - 1 > p {
                            lemma_seq_lt_transitive(key@, prev[p as int]@, prev[b - 1]@);
                        }
                    } else {
                        assert(out@[a] == prev[a - 1]);
                        assert(out@[b] == prev[b - 1]);
                    }
                }
                assert forall|j: int| 0 <= j < out.len() implies (#[trigger] out_chars@[j])@
                    == out@[j]@ by {
                    if j < p {
                    } else if j > p {
                        assert(out@[j] == prev[j - 1]);
                    }
                }
                assert forall|t: Seq<char>|
                    has_key_text(out@, t) <==> has_key_text(
                        scope_keys@.take(i + 1),
                        t,
                    ) by {
                    if has_key_text(out@, t) {
                        let k = choose|k: int| 0 <= k < out@.len() && #[trigger] out@[k]@ == t;
                        if k != p {
                            if k < p {
                                assert(prev[k]@ == t);
                            } else {
                                assert(prev[k - 1]@ == t);
                            }
                            assert(has_key_text(prev, t));
                            assert(has_key_text(scope_keys@.take(i as int), t));
                            let m = choose|m: int|
                                0 <= m < i && #[trigger] scope_keys@.take(i as int)[m]@ == t;
                            assert(scope_keys@.take(i + 1)[m]@ == t);
                        } else {
                            assert(scope_keys@.take(i + 1)[i as int]@ == t);
                        }
                    }
                    if has_key_text(scope_keys@.take(i + 1), t) {
                        let k = choose|k: int|
                            0 <= k < i + 1 && #[trigger] scope_keys@.take(i + 1)[k]@ == t;
                        if k == i {
                            assert(out@[p as int]@ == t);
                        } else {
                            assert(scope_keys@.take(i as int)[k]@ == t);
                            assert(has_key_text(scope_keys@.take(i as int), t));
                            assert(has_key_text(prev, t));
                            let m = choose|m: int| 0 <= m < prev.len() && #[trigger] prev[m]@ == t;
                            if m < p {
                                assert(out@[m]@ == t);
                            } else {
                                assert(out@[m + 1]@ == t);
                            }
                        }
                    }
                }
                assert forall|j: int| 0 <= j < out.len() implies scope_keys@.contains(
                    #[trigger] out@[j],
                ) by {
                    if j < p {
                        assert(out@[j] == prev[j]);
                    } else if j > p {
                        assert(out@[j] == prev[j - 1]);
                    } else {
                        assert(scope_keys@[i as int] == out@[j]);
                    }
                }
            }
        }
        i = i + 1;
    }
    assert(scope_keys@.take(scope_keys.len() as int) =~= scope_keys@);
    out
}

/// Two canonical sequences with the same key texts are the same sequence of texts:
/// canonicalization depends only on which keys were requested.
pub proof fn lemma_canonical_form_is_unique(a: Seq<ScopeKey>, b: Seq<ScopeKey>)
    requires
        strictly_sorted(a),
        strictly_sorted(b),
        forall|t: Seq<char>| has_key_text(a, t) <==> has_key_text(b, t),
    ensures
        a.len() == b.len(),
        forall|i: int| 0 <= i < a.len() ==> (#[trigger] a[i])@ == b[i]@,
    decreases a.len(),
{
    if a.len() == 0 {
        if b.len() > 0 {
            assert(has_key_text(b, b[0]@));
        }
    } else if b.len() == 0 {
        assert(has_key_text(a, a[0]@));
    } else {
        // The first keys are both the least text present.
        assert(has_key_text(a, a[0]@));
        assert(has_key_text(b, b[0]@));
        let j = choose|j: int| 0 <= j < b.len() && #[trigger] b[j]@ == a[0]@;
        let k = choose|k: int| 0 <= k < a.len() && #[trigger] a[k]@ == b[0]@;
        if a[0]@ != b[0]@ {
            assert(j > 0);
            assert(k > 0);
            assert(seq_lt(b[0]@, b[j]@));
            assert(seq_lt(a[0]@, a[k]@));
            lemma_seq_lt_asymmetric(a[0]@, b[0]@);
        }
        let a2 = a.drop_first();
        let b2 = b.drop_first();
        assert forall|t: Seq<char>| has_key_text(a2, t) <==> has_key_text(b2, t) by {
            if has_key_text(a2, t) {
                let m = choose|m: int| 0 <= m < a2.len() && #[trigger] a2[m]@ == t;
                assert(a[m + 1]@ == t);
                assert(seq_lt(a[0]@, a[m + 1]@));
                assert(has_key_text(a, t));
                let n = choose|n: int| 0 <= n < b.len() && #[trigger] b[n]@ == t;
                if n == 0 {
                    lemma_seq_lt_irreflexive(t);
                }
                assert(b2[n - 1]@ == t);
            }
            if has_key_text(b2, t) {
                let m = choose|m: int| 0 <= m < b2.len() && #[trigger] b2[m]@ == t;
                assert(b[m + 1]@ == t);
                assert(seq_lt(b[0]@, b[m + 1]@));
                assert(has_key_text(b, t));
                let n = choose|n: int| 0 <= n < a.len() && #[trigger] a[n]@ == t;
                if n == 0 {
                    lemma_seq_lt_irreflexive(t);
                }
                assert(a2[n - 1]@ == t);
            }
        }
        assert(strictly_sorted(a2)) by {
            assert forall|x: int, y: int| 0 <= x < y < a2.len() implies seq_lt(
                #[trigger] a2[x]@,
                #[trigger] a2[y]@,
            ) by {
                assert(a2[x] == a[x + 1]);
                assert(a2[y] == a[y + 1]);
            }
        }
        assert(strictly_sorted(b2)) by {
            assert forall|x: int, y: int| 0 <= x < y < b2.len() implies seq_lt(
                #[trigger] b2[x]@,
                #[trigger] b2[y]@,
            ) by {
                assert(b2[x] == b[x + 1]);
                assert(b2[y] == b[y + 1]);
            }
        }
        lemma_canonical_form_is_unique(a2, b2);
        assert forall|i: int| 0 <= i < a.len() implies (#[trigger] a[i])@ == b[i]@ by {
            if i > 0 {
                assert(a[i] == a2[i - 1]);
                assert(b[i] == b2[i - 1]);
            }
        }
    }
}

/// A validated, canonical, non-empty set of exact opaque scope keys.
#[derive(Debug, PartialEq, Eq)]
pub struct ScopeSet(Vec<ScopeKey>);

impl View for ScopeSet {
    type V = Seq<ScopeKey>;

    closed spec fn view(&self) -> Seq<ScopeKey> {
        self.0@
    }
}

impl ScopeSet {
    /// Every scope set is non-empty and strictly ascending by key text.
    #[verifier::type_invariant]
    spec fn well_formed(self) -> bool {
        self.0@.len() > 0 && strictly_sorted(self.0@)
    }
}

impl Clone for ScopeSet {
    fn clone(&self) -> (r: Self)
        ensures
            r@ == self@,
    {
        proof {
            use_type_invariant(self);
        }
        let mut keys: Vec<ScopeKey> = Vec::new();
        let mut i: usize = 0;
        while i < self.0.len()
            invariant
                i <= self.0.len(),
                keys@ == self.0@.take(i as int),
            decreases self.0.len() - i,
        {
            keys.push(self.0[i].clone());
            i = i + 1;
            assert(keys@ =~= self.0@.take(i as int));
        }
        assert(self.0@.take(self.0.len() as int) =~= self.0@);
        ScopeSet(keys)
    }
}

/// A strictly ascending sequence is its own canonical form, and every canonical form
/// of it holds the same key texts at the same positions: canonicalizing a scope set's
/// keys again gives the same set.
pub proof fn lemma_canonical_form_is_idempotent(s: Seq<ScopeKey>, out: Seq<ScopeKey>)
    requires
        strictly_sorted(s),
        canonical_form_of(s, out),
    ensures
        canonical_form_of(s, s),
        same_key_texts(out, s),
{
    assert forall|i: int| 0 <= i < s.len() implies s.contains(#[trigger] s[i]) by {}
    lemma_canonical_form_is_unique(out, s);
}

/// Two key sequences hold the same texts at the same positions.
pub open spec fn same_key_texts(a: Seq<ScopeKey>, b: Seq<ScopeKey>) -> bool {
    &&& a.len() == b.len()
    &&& forall|i: int| 0 <= i < a.len() ==> (#[trigger] a[i])@ == b[i]@
}

impl ScopeSet {
    /// The canonical form of `scope_keys`, which must not be empty.
    pub fn try_new(scope_keys: Vec<ScopeKey>) -> (r: Result<Self, DomainError>)
        ensures
            match r {
                Ok(s) => scope_keys@.len() > 0 && s@.len() > 0 && canonical_form_of(
                    scope_keys@,
                    s@,
                ),
                Err(e) => scope_keys@.len() == 0 && e == DomainError::EmptyScopeSet,
            },
    {
        if scope_keys.len() == 0 {
            return Err(DomainError::EmptyScopeSet);
        }
        let ghost input = scope_keys@;
        let keys = canonicalize_scope_keys(scope_keys);
        proof {
            assert(has_key_text(input, input[0]@));
        }
        Ok(ScopeSet(keys))
    }

    /// The keys in canonical order: never empty, strictly ascending by text.
    pub fn as_slice(&self) -> (r: &[ScopeKey])
        ensures
            r@ == self@,
            r@.len() > 0,
            strictly_sorted(r@),
    {
        proof {
            use_type_invariant(self);
        }
        self.0.as_slice()
    }

    pub fn len(&self) -> (r: usize)
        ensures
            r == self@.len(),
            r >= 1,
    {
        proof {
            use_type_invariant(self);
        }
        self.0.len()
    }

    /// No scope set is empty.
    pub fn is_empty(&self) -> (r: bool)
        ensures
            r == (self@.len() == 0),
            !r,
    {
        proof {
            use_type_invariant(self);
        }
        self.0.len() == 0
    }

    /// The two sets hold exactly the same keys.
    pub fn same_as(&self, other: &ScopeSet) -> (r: bool)
        ensures
            r == same_key_texts(self@, other@),
    {
        if self.0.len() != other.0.len() {
            return false;
        }
        let mut i: usize = 0;
        while i < self.0.len()
            invariant
                i <= self.0.len(),
                self.0.len() == other.0.len(),
                forall|j: int| 0 <= j < i ==> (#[trigger] self.0@[j])@ == other.0@[j]@,
            decreases self.0.len() - i,
        {
            if !self.0[i].same_as(&other.0[i]) {
                return false;
            }
            i = i + 1;
        }
        true
    }
}

/// The lifecycle of an execution guard.
#[derive(Debug, PartialEq, Eq)]
pub enum GuardState {
    Issued,
    Admitted { action_ref: TethersActionRef },
    Resolved { action_ref: TethersActionRef, outcome: TethersOutcome },
    Uncertain { action_ref: TethersActionRef },
    Invalidated,
}

/// A guard's lifecycle state with its references taken by their text.
pub enum GuardStateView {
    Issued,
    Admitted(Seq<char>),
    Resolved(Seq<char>, TethersOutcomeView),
    Uncertain(Seq<char>),
    Invalidated,
}

impl View for GuardState {
    type V = GuardStateView;

    open spec fn view(&self) -> GuardStateView {
        match *self {
            GuardState::Issued => GuardStateView::Issued,
            GuardState::Admitted { action_ref } => GuardStateView::Admitted(action_ref@),
            GuardState::Resolved { action_ref, outcome } => GuardStateView::Resolved(
                action_ref@,
                outcome@,
            ),
            GuardState::Uncertain { action_ref } => GuardStateView::Uncertain(action_ref@),
            GuardState::Invalidated => GuardStateView::Invalidated,
        }
    }
}

impl Clone for GuardState {
    fn clone(&self) -> (r: Self)
        ensures
            r == *self,
    {
        match self {
            GuardState::Issued => GuardState::Issued,
            GuardState::Admitted { action_ref } => GuardState::Admitted {
                action_ref: action_ref.clone(),
            },
            GuardState::Resolved { action_ref, outcome } => GuardState::Resolved {
                action_ref: action_ref.clone(),
                outcome: outcome.clone(),
            },
            GuardState::Uncertain { action_ref } => GuardState::Uncertain {
                action_ref: action_ref.clone(),
            },
            GuardState::Invalidated => GuardState::Invalidated,
        }
    }
}

/// The observable content of an execution guard.
pub struct ExecutionGuardView {
    pub guard_id: GuardId,
    pub commitment_id: CommitmentId,
    pub claim_epoch: ClaimEpoch,
    pub scope_keys: Seq<ScopeKey>,
    pub boot_generation: BootGeneration,
    pub state: GuardState,
    pub reservation_expires_at: MonotonicInstant,
}

/// A Resolve-issued, opaque coordination token for a fenced worker and its scope.
#[derive(Clone, Debug, PartialEq, Eq)]
pub struct ExecutionGuard {
    guard_id: GuardId,
    commitment_id: CommitmentId,
    claim_epoch: ClaimEpoch,
    scope_set: ScopeSet,
    boot_generation: BootGeneration,
    state: GuardState,
    reservation_expires_at: MonotonicInstant,
}

impl View for ExecutionGuard {
    type V = ExecutionGuardView;

    closed spec fn view(&self) -> ExecutionGuardView {
        ExecutionGuardView {
            guard_id: self.guard_id,
            commitment_id: self.commitment_id,
            claim_epoch: self.claim_epoch,
            scope_keys: self.scope_set@,
            boot_generation: self.boot_generation,
            state: self.state,
            reservation_expires_at: self.reservation_expires_at,
        }
    }
}

impl ExecutionGuard {
    /// Construct the issued guard after the store has validated current claim
    /// ownership and exact-scope availability in its transaction.
    pub fn issue(
        guard_id: GuardId,
        commitment_id: CommitmentId,
        claim_epoch: ClaimEpoch,
        scope_set: ScopeSet,
        boot_generation: BootGeneration,
        reservation_expires_at: MonotonicInstant,
    ) -> (r: Self)
        ensures
            r@ == (ExecutionGuardView {
                guard_id,
                commitment_id,
                claim_epoch,
                scope_keys: scope_set@,
                boot_generation,
                state: GuardState::Issued,
                reservation_expires_at,
            }),
    {
        ExecutionGuard {
            guard_id,
            commitment_id,
            claim_epoch,
            scope_set,
            boot_generation,
            state: GuardState::Issued,
            reservation_expires_at,
        }
    }

    /// The reservation deadline: the earlier of `now + guard_ttl` and the claim's lease
    /// deadline. A lease that has already ended, or a guard deadline past the tick space,
    /// fails closed.
    pub fn reservation_deadline(
        now: MonotonicInstant,
        guard_ttl: MonotonicDuration,
        claim_lease_deadline: MonotonicInstant,
    ) -> (r: Result<MonotonicInstant, DomainError>)
        ensures
            match r {
                Ok(t) => {
                    &&& now@ < claim_lease_deadline@
                    &&& now@ + guard_ttl@ <= u64::MAX
                    &&& t@ == if now@ + guard_ttl@ <= claim_lease_deadline@ {
                        now@ + guard_ttl@
                    } else {
                        claim_lease_deadline@ as int
                    }
                },
                Err(e) => if claim_lease_deadline@ <= now@ {
                    e == DomainError::InvalidLeaseDeadline
                } else {
                    now@ + guard_ttl@ > u64::MAX && e == DomainError::TimeOverflow
                },
            },
    {
        if claim_lease_deadline.ticks() <= now.ticks() {
            return Err(DomainError::InvalidLeaseDeadline);
        }
        let guard_deadline = guard_ttl.deadline_from(now)?;
        if guard_deadline.ticks() <= claim_lease_deadline.ticks() {
            Ok(guard_deadline)
        } else {
            Ok(claim_lease_deadline)
        }
    }

    pub fn guard_id(&self) -> (r: &GuardId)
        ensures
            *r == self@.guard_id,
    {
        &self.guard_id
    }

    pub fn commitment_id(&self) -> (r: &CommitmentId)
        ensures
            *r == self@.commitment_id,
    {
        &self.commitment_id
    }

    pub fn claim_epoch(&self) -> (r: ClaimEpoch)
        ensures
            r == self@.claim_epoch,
    {
        self.claim_epoch
    }

    pub fn scope_keys(&self) -> (r: &[ScopeKey])
        ensures
            r@ == self@.scope_keys,
    {
        self.scope_set.as_slice()
    }

    pub fn boot_generation(&self) -> (r: BootGeneration)
        ensures
            r == self@.boot_generation,
    {
        self.boot_generation
    }

    pub fn state(&self) -> (r: &GuardState)
        ensures
            *r == self@.state,
    {
        &self.state
    }

    pub fn reservation_expires_at(&self) -> (r: MonotonicInstant)
        ensures
            r == self@.reservation_expires_at,
    {
        self.reservation_expires_at
    }
}

} // verus!
