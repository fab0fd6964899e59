//! Closed structural proposals and dependency-graph validation.
use crate::domain::{same_prerequisite, Prerequisite, StructuralChange};
use crate::error::DomainError;
use crate::ids::{AcceptanceRef, CommitmentId};
use crate::text::{is_blank, str_is_blank};
use crate::values::ClaimEpoch;
use vstd::prelude::*;
use vstd::set_lib::{lemma_int_range, set_int_range};

verus! {

/// The only structural mutations a worker may propose.
#[derive(Clone, Debug, PartialEq, Eq)]
pub enum StructuralProposal {
    Decompose {
        target: CommitmentId,
        epoch: ClaimEpoch,
        children: Vec<NewCommitment>,
        replacement_terminal_id: CommitmentId,
    },
    AddPrerequisite { target: CommitmentId, prerequisite: Prerequisite, epoch: ClaimEpoch },
    Abandon { target: CommitmentId, epoch: ClaimEpoch, rationale: String },
}

/// The observable content of a proposed child commitment.
pub struct NewCommitmentView {
    pub commitment_id: CommitmentId,
    pub description: Seq<char>,
    pub prerequisites: Seq<Prerequisite>,
    pub acceptance_refs: Seq<AcceptanceRef>,
}

/// The child description supplied by a decomposition proposal.
#[derive(Clone, Debug, PartialEq, Eq)]
pub struct NewCommitment {
    commitment_id: CommitmentId,
    description: String,
    prerequisites: Vec<Prerequisite>,
    acceptance_refs: Vec<AcceptanceRef>,
}

impl View for NewCommitment {
    type V = NewCommitmentView;

    closed spec fn view(&self) -> NewCommitmentView {
        NewCommitmentView {
            commitment_id: self.commitment_id,
            description: self.description@,
            prerequisites: self.prerequisites@,
            acceptance_refs: self.acceptance_refs@,
        }
    }
}

/// Some two prerequisites are the same.
pub open spec fn has_duplicates(prerequisites: Seq<Prerequisite>) -> bool {
    exists|i: int, j: int|
        0 <= i < j < prerequisites.len() && same_prerequisite(
            #[trigger] prerequisites[i],
            #[trigger] prerequisites[j],
        )
}

impl NewCommitment {
    /// A proposed child, unless its description is blank or it lists a prerequisite twice.
    pub fn new(
        commitment_id: CommitmentId,
        description: &str,
        prerequisites: Vec<Prerequisite>,
        acceptance_refs: Vec<AcceptanceRef>,
    ) -> (r: Result<Self, DomainError>)
        ensures
            match r {
                Ok(c) => {
                    &&& !is_blank(description@)
                    &&& !has_duplicates(prerequisites@)
                    &&& c@ == NewCommitmentView {
                        commitment_id,
                        description: description@,
                        prerequisites: prerequisites@,
                        acceptance_refs: acceptance_refs@,
                    }
                },
                Err(e) => if is_blank(description@) {
                    e == DomainError::EmptyDescription
                } else {
                    has_duplicates(prerequisites@) && e == (
                    DomainError::InvalidStructuralProposal {
                        reason: "child prerequisites must be unique",
                    })
                },
            },
    {
        if str_is_blank(description) {
            return Err(DomainError::EmptyDescription);
        }
        if has_duplicate_prerequisites(prerequisites.as_slice()) {
            return Err(
                DomainError::InvalidStructuralProposal {
                    reason: "child prerequisites must be unique",
                },
            );
        }
        Ok(NewCommitment {
            commitment_id,
            description: description.to_owned(),
            prerequisites,
            acceptance_refs,
        })
    }

    pub fn commitment_id(&self) -> (r: &CommitmentId)
        ensures
            *r == self@.commitment_id,
    {
        &self.commitment_id
    }

    pub fn description(&self) -> (r: &str)
        ensures
            r@ == self@.description,
    {
        self.description.as_str()
    }

    pub fn prerequisites(&self) -> (r: &[Prerequisite])
        ensures
            r@ == self@.prerequisites,
    {
        self.prerequisites.as_slice()
    }

    pub fn acceptance_refs(&self) -> (r: &[AcceptanceRef])
        ensures
            r@ == self@.acceptance_refs,
    {
        self.acceptance_refs.as_slice()
    }
}

/// The first position at which a child repeats an earlier child's identifier, if any.
pub open spec fn first_repeated_child(children: Seq<NewCommitment>) -> bool {
    exists|i: int, j: int|
        0 <= i < j < children.len() && (#[trigger] children[i])@.commitment_id@ == (
        #[trigger] children[j])@.commitment_id@
}

/// Some child is identified by `id`.
pub open spec fn names_child(children: Seq<NewCommitment>, id: CommitmentId) -> bool {
    exists|i: int| 0 <= i < children.len() && (#[trigger] children[i])@.commitment_id@ == id@
}

/// Some child lists a prerequisite twice.
pub open spec fn some_child_repeats_prerequisite(children: Seq<NewCommitment>) -> bool {
    exists|i: int| 0 <= i < children.len() && has_duplicates((#[trigger] children[i])@.prerequisites)
}

/// The verdict of the proposal-local rules.
pub open spec fn proposal_shape_verdict(proposal: StructuralProposal) -> Result<(), DomainError> {
    match proposal {
        StructuralProposal::Decompose { target, children, replacement_terminal_id, .. } => {
            if children@.len() == 0 {
                Err(
                    DomainError::InvalidStructuralProposal {
                        reason: "decomposition must contain at least one child",
                    },
                )
            } else if first_repeated_child(children@) {
                Err(
                    DomainError::InvalidStructuralProposal {
                        reason: "decomposition child IDs must be unique",
                    },
                )
            } else if target@ == replacement_terminal_id@ {
                Err(
                    DomainError::InvalidStructuralProposal {
                        reason: "replacement terminal must be a new child",
                    },
                )
            } else if !names_child(children@, replacement_terminal_id) {
                Err(
                    DomainError::InvalidStructuralProposal {
                        reason: "replacement terminal must identify one proposed child",
                    },
                )
            } else if some_child_repeats_prerequisite(children@) {
                Err(
                    DomainError::InvalidStructuralProposal {
                        reason: "child prerequisites must be unique",
                    },
                )
            } else {
                Ok(())
            }
        },
        StructuralProposal::AddPrerequisite { prerequisite, .. } => {
            if prerequisite matches Prerequisite::Commitment(id) && is_blank(id@) {
                Err(
                    DomainError::InvalidStructuralProposal {
                        reason: "commitment prerequisite ID must not be empty",
                    },
                )
            } else {
                Ok(())
            }
        },
        StructuralProposal::Abandon { rationale, .. } => {
            if is_blank(rationale@) {
                Err(
                    DomainError::InvalidStructuralProposal {
                        reason: "abandon rationale must not be empty",
                    },
                )
            } else {
                Ok(())
            }
        },
    }
}

/// An accepted decomposition has at least one child, no two children with the same
/// identifier, a replacement terminal that is one of the children and not the target,
/// and no child listing a prerequisite twice.
pub proof fn lemma_accepted_decomposition_is_well_formed(proposal: StructuralProposal)
    requires
        proposal is Decompose,
        proposal_shape_verdict(proposal) is Ok,
    ensures
        proposal matches StructuralProposal::Decompose {
            target,
            children,
            replacement_terminal_id,
            ..
        } && {
            &&& children@.len() > 0
            &&& forall|i: int, j: int|
                0 <= i < j < children@.len() ==> (#[trigger] children@[i])@.commitment_id@ != (
                #[trigger] children@[j])@.commitment_id@
            &&& exists|k: int|
                0 <= k < children@.len() && (#[trigger] children@[k])@.commitment_id@
                    == replacement_terminal_id@
            &&& target@ != replacement_terminal_id@
            &&& forall|k: int, a: int, b: int|
                0 <= k < children@.len() && 0 <= a < b < (#[trigger] children@[k])@.prerequisites.len()
                    ==> !same_prerequisite(
                    #[trigger] children@[k]@.prerequisites[a],
                    #[trigger] children@[k]@.prerequisites[b],
                )
        },
{
    if let StructuralProposal::Decompose { children, .. } = proposal {
        assert forall|k: int, a: int, b: int|
            0 <= k < children@.len() && 0 <= a < b < (#[trigger] children@[k])@.prerequisites.len()
                implies !same_prerequisite(
            #[trigger] children@[k]@.prerequisites[a],
            #[trigger] children@[k]@.prerequisites[b],
        ) by {
            assert(!has_duplicates(children@[k]@.prerequisites));
        }
    }
}

/// A decomposition that names the same child twice, wherever the two stand, is refused
/// for that reason (once it has children at all).
pub proof fn lemma_repeated_child_is_refused(proposal: StructuralProposal, i: int, j: int)
    requires
        proposal matches StructuralProposal::Decompose { children, .. } && 0 <= i < j
            < children@.len() && children@[i]@.commitment_id@ == children@[j]@.commitment_id@,
    ensures
        proposal_shape_verdict(proposal) == Err::<(), DomainError>(
            DomainError::InvalidStructuralProposal { reason: "decomposition child IDs must be unique" },
        ),
{
}

/// Validate the proposal-local rules that do not require persistence.
#[verifier::loop_isolation(false)]
pub fn validate_proposal_shape(proposal: &StructuralProposal) -> (r: Result<(), DomainError>)
    ensures
        r == proposal_shape_verdict(*proposal),
{
    match proposal {
        StructuralProposal::Decompose { target, children, replacement_terminal_id, .. } => {
            if children.len() == 0 {
                return Err(
                    DomainError::InvalidStructuralProposal {
                        reason: "decomposition must contain at least one child",
                    },
                );
            }
            let mut i: usize = 0;
            while i < children.len()
                invariant
                    i <= children.len(),
                    forall|a: int, b: int|
                        0 <= a < b < i ==> (#[trigger] children@[a])@.commitment_id@ != (
                        #[trigger] children@[b])@.commitment_id@,
                decreases children.len() - i,
            {
                let mut k: usize = 0;
                while k < i
                    invariant
                        i < children.len(),
                        k <= i,
                        forall|a: int|
                            0 <= a < k ==> (#[trigger] children@[a])@.commitment_id@
                                != children@[i as int]@.commitment_id@,
                    decreases i - k,
                {
                    if children[k].commitment_id().same_as(children[i].commitment_id()) {
                        assert(children@[k as int]@.commitment_id@ == children@[i as int]@.commitment_id@);
                        assert(first_repeated_child(children@));
                        return Err(
                            DomainError::InvalidStructuralProposal {
                                reason: "decomposition child IDs must be unique",
                            },
                        );
                    }
                    k = k + 1;
                }
                i = i + 1;
            }
            if target.same_as(replacement_terminal_id) {
                return Err(
                    DomainError::InvalidStructuralProposal {
                        reason: "replacement terminal must be a new child",
                    },
                );
            }
            let mut found = false;
            let mut j: usize = 0;
            while j < children.len()
                invariant
                    j <= children.len(),
                    found == exists|a: int|
                        0 <= a < j && (#[trigger] children@[a])@.commitment_id@
                            == replacement_terminal_id@,
                decreases children.len() - j,
            {
                if children[j].commitment_id().same_as(replacement_terminal_id) {
                    found = true;
                }
                j = j + 1;
            }
            if !found {
                return Err(
                    DomainError::InvalidStructuralProposal {
                        reason: "replacement terminal must identify one proposed child",
                    },
                );
            }
            validate_child_prerequisites(children.as_slice())
        },
        StructuralProposal::AddPrerequisite { prerequisite, .. } => {
            if let Prerequisite::Commitment(id) = prerequisite {
                if str_is_blank(id.as_str()) {
                    return Err(
                        DomainError::InvalidStructuralProposal {
                            reason: "commitment prerequisite ID must not be empty",
                        },
                    );
                }
            }
            Ok(())
        },
        StructuralProposal::Abandon { rationale, .. } => {
            if str_is_blank(rationale.as_str()) {
                return Err(
                    DomainError::InvalidStructuralProposal {
                        reason: "abandon rationale must not be empty",
                    },
                );
            }
            Ok(())
        },
    }
}

fn validate_child_prerequisites(children: &[NewCommitment]) -> (r: Result<(), DomainError>)
    ensures
        r == if some_child_repeats_prerequisite(children@) {
            Err::<(), DomainError>(
                DomainError::InvalidStructuralProposal {
                    reason: "child prerequisites must be unique",
                },
            )
        } else {
            Ok(())
        },
{
    let mut i: usize = 0;
    while i < children.len()
        invariant
            i <= children.len(),
            forall|a: int| 0 <= a < i ==> !has_duplicates((#[trigger] children@[a])@.prerequisites),
        decreases children.len() - i,
    {
        if has_duplicate_prerequisites(children[i].prerequisites()) {
            return Err(
                DomainError::InvalidStructuralProposal {
                    reason: "child prerequisites must be unique",
                },
            );
        }
        i = i + 1;
    }
    Ok(())
}

/// Whether some prerequisite repeats an earlier one.
pub fn has_duplicate_prerequisites(prerequisites: &[Prerequisite]) -> (r: bool)
    ensures
        r == has_duplicates(prerequisites@),
{
    let mut index: usize = 0;
    while index < prerequisites.len()
        invariant
            index <= prerequisites.len(),
            forall|i: int, j: int|
                0 <= i < j < index ==> !same_prerequisite(
                    #[trigger] prerequisites@[i],
                    #[trigger] prerequisites@[j],
                ),
        decreases prerequisites.len() - index,
    {
        let mut k: usize = 0;
        while k < index
            invariant
                index < prerequisites.len(),
                k <= index,
                forall|i: int|
                    0 <= i < k ==> !same_prerequisite(
                        #[trigger] prerequisites@[i],
                        prerequisites@[index as int],
                    ),
            decreases index - k,
        {
            if prerequisites[k].same_as(&prerequisites[index]) {
                return true;
            }
            k = k + 1;
        }
        index = index + 1;
    }
    false
}

/// Keep the event's structural evidence closed and typed at the domain edge.
pub fn change_for_decomposition(
    children: Vec<CommitmentId>,
    replacement_terminal_id: CommitmentId,
) -> (r: StructuralChange)
    ensures
        r == (StructuralChange::Decomposed { children, replacement_terminal_id }),
{
    StructuralChange::Decomposed { children, replacement_terminal_id }
}

// ---------------------------------------------------------------------------
// Dependency graphs: each entry is a commitment and the commitments it depends on.

/// The text of entry `i`'s key.
pub open spec fn key_text(graph: Seq<(CommitmentId, Vec<CommitmentId>)>, i: int) -> Seq<char> {
    graph[i].0@
}

/// The text of entry `i`'s `d`-th dependency.
pub open spec fn dep_text(graph: Seq<(CommitmentId, Vec<CommitmentId>)>, i: int, d: int) -> Seq<
    char,
> {
    graph[i].1@[d]@
}

/// `a` depends directly on `b`.
pub open spec fn has_edge(
    graph: Seq<(CommitmentId, Vec<CommitmentId>)>,
    a: Seq<char>,
    b: Seq<char>,
) -> bool {
    exists|i: int, d: int|
        0 <= i < graph.len() && 0 <= d < graph[i].1@.len() && #[trigger] key_text(graph, i) == a
            && #[trigger] dep_text(graph, i, d) == b
}

/// `path` walks dependency edges and returns to where it started.
pub open spec fn is_cycle(graph: Seq<(CommitmentId, Vec<CommitmentId>)>, path: Seq<Seq<char>>) -> bool {
    &&& path.len() >= 2
    &&& path[0] == path[path.len() - 1]
    &&& forall|k: int| 0 <= k < path.len() - 1 ==> has_edge(graph, #[trigger] path[k], path[k + 1])
}

/// No commitment depends, directly or through others, on itself.
pub open spec fn is_acyclic(graph: Seq<(CommitmentId, Vec<CommitmentId>)>) -> bool {
    forall|path: Seq<Seq<char>>| !is_cycle(graph, path)
}

/// Some entry that is not yet removed has key `b`.
pub open spec fn is_live(
    graph: Seq<(CommitmentId, Vec<CommitmentId>)>,
    removed: Seq<bool>,
    b: Seq<char>,
) -> bool {
    exists|j: int| 0 <= j < graph.len() && !removed[j] && #[trigger] key_text(graph, j) == b
}

/// No dependency of entry `i` is live.
pub open spec fn is_ready(
    graph: Seq<(CommitmentId, Vec<CommitmentId>)>,
    removed: Seq<bool>,
    i: int,
) -> bool {
    forall|d: int| 0 <= d < graph[i].1@.len() ==> !is_live(graph, removed, #[trigger] dep_text(graph, i, d))
}

/// Every dependency of a removed entry was removed strictly earlier.
pub open spec fn removal_order(
    graph: Seq<(CommitmentId, Vec<CommitmentId>)>,
    removed: Seq<bool>,
    time: Seq<int>,
) -> bool {
    forall|i: int, d: int, j: int|
        0 <= i < graph.len() && removed[i] && 0 <= d < graph[i].1@.len() && 0 <= j < graph.len()
            && #[trigger] dep_text(graph, i, d) == #[trigger] key_text(graph, j) ==> removed[j]
            && time[j] < time[i]
}

pub open spec fn count_removed(s: Seq<bool>) -> nat
    decreases s.len(),
{
    if s.len() == 0 {
        0
    } else {
        count_removed(s.drop_last()) + if s.last() {
            1nat
        } else {
            0nat
        }
    }
}

proof fn lemma_count_removed_bound(s: Seq<bool>)
    ensures
        count_removed(s) <= s.len(),
    decreases s.len(),
{
    if s.len() > 0 {
        lemma_count_removed_bound(s.drop_last());
    }
}

proof fn lemma_count_removed_update(s: Seq<bool>, i: int)
    requires
        0 <= i < s.len(),
        !s[i],
    ensures
        count_removed(s.update(i, true)) == count_removed(s) + 1,
    decreases s.len(),
{
    if i < s.len() - 1 {
        assert(s.update(i, true).drop_last() =~= s.drop_last().update(i, true));
        lemma_count_removed_update(s.drop_last(), i);
    } else {
        assert(s.update(i, true).drop_last() =~= s.drop_last());
    }
}

/// Whether some entry that is not yet removed has the key `key`.
fn key_is_live(graph: &Vec<(CommitmentId, Vec<CommitmentId>)>, removed: &Vec<bool>, key: &CommitmentId) -> (r: bool)
    requires
        removed.len() == graph.len(),
    ensures
        r == is_live(graph@, removed@, key@),
{
    let mut j: usize = 0;
    while j < graph.len()
        invariant
            j <= graph.len(),
            removed.len() == graph.len(),
            forall|k: int| 0 <= k < j ==> !(!removed@[k] && #[trigger] key_text(graph@, k) == key@),
        decreases graph.len() - j,
    {
        if !removed[j] && graph[j].0.same_as(key) {
            assert(key_text(graph@, j as int) == key@);
            return true;
        }
        j = j + 1;
    }
    false
}

/// Whether no dependency of entry `i` is live.
fn entry_is_ready(graph: &Vec<(CommitmentId, Vec<CommitmentId>)>, removed: &Vec<bool>, i: usize) -> (r: bool)
    requires
        removed.len() == graph.len(),
        i < graph.len(),
    ensures
        r == is_ready(graph@, removed@, i as int),
{
    let deps = &graph[i].1;
    let mut d: usize = 0;
    while d < deps.len()
        invariant
            removed.len() == graph.len(),
            i < graph.len(),
            *deps == graph@[i as int].1,
            d <= deps.len(),
            forall|e: int| 0 <= e < d ==> !is_live(graph@, removed@, #[trigger] dep_text(graph@, i as int, e)),
        decreases deps.len() - d,
    {
        if key_is_live(graph, removed, &deps[d]) {
            assert(dep_text(graph@, i as int, d as int) == deps@[d as int]@);
            return false;
        }
        assert(dep_text(graph@, i as int, d as int) == deps@[d as int]@);
        d = d + 1;
    }
    true
}

/// With every entry removed in dependency order, no cycle exists.
proof fn lemma_removal_order_excludes_cycles(
    graph: Seq<(CommitmentId, Vec<CommitmentId>)>,
    removed: Seq<bool>,
    time: Seq<int>,
    path: Seq<Seq<char>>,
)
    requires
        removed.len() == graph.len(),
        time.len() == graph.len(),
        forall|i: int| 0 <= i < graph.len() ==> removed[i],
        removal_order(graph, removed, time),
    ensures
        !is_cycle(graph, path),
{
    if is_cycle(graph, path) {
        assert(has_edge(graph, path[0], path[1]));
        let (e0, d0) = choose|i: int, d: int|
            0 <= i < graph.len() && 0 <= d < graph[i].1@.len() && #[trigger] key_text(graph, i)
                == path[0] && #[trigger] dep_text(graph, i, d) == path[1];
        lemma_later_keys_removed_earlier(graph, removed, time, path, e0, (path.len() - 1) as int);
        assert(key_text(graph, e0) == path[path.len() - 1]);
    }
}

/// Along a cycle, every entry keyed by the `m`-th node was removed before the entry
/// that provides the first edge.
proof fn lemma_later_keys_removed_earlier(
    graph: Seq<(CommitmentId, Vec<CommitmentId>)>,
    removed: Seq<bool>,
    time: Seq<int>,
    path: Seq<Seq<char>>,
    e0: int,
    m: int,
)
    requires
        removed.len() == graph.len(),
        time.len() == graph.len(),
        forall|i: int| 0 <= i < graph.len() ==> removed[i],
        removal_order(graph, removed, time),
        is_cycle(graph, path),
        0 <= e0 < graph.len(),
        key_text(graph, e0) == path[0],
        exists|d: int| 0 <= d < graph[e0].1@.len() && #[trigger] dep_text(graph, e0, d) == path[1],
        1 <= m < path.len(),
    ensures
        forall|j: int|
            0 <= j < graph.len() && #[trigger] key_text(graph, j) == path[m] ==> time[j] < time[e0],
    decreases m,
{
    if m == 1 {
        let d0 = choose|d: int| 0 <= d < graph[e0].1@.len() && #[trigger] dep_text(graph, e0, d) == path[1];
        assert forall|j: int| 0 <= j < graph.len() && #[trigger] key_text(graph, j) == path[m] implies time[j]
            < time[e0] by {
            assert(dep_text(graph, e0, d0) == key_text(graph, j));
        }
    } else {
        lemma_later_keys_removed_earlier(graph, removed, time, path, e0, m - 1);
        assert(has_edge(graph, path[m - 1], path[m]));
        let (em, dm) = choose|i: int, d: int|
            0 <= i < graph.len() && 0 <= d < graph[i].1@.len() && #[trigger] key_text(graph, i)
                == path[m - 1] && #[trigger] dep_text(graph, i, d) == path[m];
        assert forall|j: int| 0 <= j < graph.len() && #[trigger] key_text(graph, j) == path[m] implies time[j]
            < time[e0] by {
            assert(dep_text(graph, em, dm) == key_text(graph, j));
        }
    }
}

/// A live entry that entry `i` depends on, when `i` is not ready.
spec fn blocking_entry(
    graph: Seq<(CommitmentId, Vec<CommitmentId>)>,
    removed: Seq<bool>,
    i: int,
) -> int {
    choose|j: int|
        0 <= j < graph.len() && !removed[j] && exists|d: int|
            0 <= d < graph[i].1@.len() && #[trigger] dep_text(graph, i, d) == key_text(graph, j)
}

/// Starting at `start`, follow blocking entries `k` times.
spec fn blocked_walk(
    graph: Seq<(CommitmentId, Vec<CommitmentId>)>,
    removed: Seq<bool>,
    start: int,
    k: nat,
) -> int
    decreases k,
{
    if k == 0 {
        start
    } else {
        blocking_entry(graph, removed, blocked_walk(graph, removed, start, (k - 1) as nat))
    }
}

/// Every step of a blocked walk stays on entries that are not removed, each blocked by the next.
proof fn lemma_blocked_walk(
    graph: Seq<(CommitmentId, Vec<CommitmentId>)>,
    removed: Seq<bool>,
    start: int,
    k: nat,
)
    requires
        removed.len() == graph.len(),
        0 <= start < graph.len(),
        !removed[start],
        forall|i: int| 0 <= i < graph.len() && !removed[i] ==> !is_ready(graph, removed, i),
    ensures
        0 <= blocked_walk(graph, removed, start, k) < graph.len(),
        !removed[blocked_walk(graph, removed, start, k)],
        ({
            let cur = blocked_walk(graph, removed, start, k);
            let nxt = blocked_walk(graph, removed, start, k + 1);
            &&& 0 <= nxt < graph.len()
            &&& !removed[nxt]
            &&& exists|d: int|
                0 <= d < graph[cur].1@.len() && #[trigger] dep_text(graph, cur, d) == key_text(graph, nxt)
        }),
    decreases k,
{
    if k > 0 {
        lemma_blocked_walk(graph, removed, start, (k - 1) as nat);
    }
    let cur = blocked_walk(graph, removed, start, k);
    assert(!is_ready(graph, removed, cur));
    let d = choose|d: int| 0 <= d < graph[cur].1@.len() && is_live(graph, removed, #[trigger] dep_text(graph, cur, d));
    let j = choose|j: int| 0 <= j < graph.len() && !removed[j] && #[trigger] key_text(graph, j) == dep_text(graph, cur, d);
    assert(exists|d2: int| 0 <= d2 < graph[cur].1@.len() && #[trigger] dep_text(graph, cur, d2) == key_text(graph, j));
}

/// Among `n + 1` values in `[0, n)` two are equal.
proof fn lemma_pigeonhole(f: Seq<int>, n: int)
    requires
        n >= 0,
        f.len() == n + 1,
        forall|k: int| 0 <= k < f.len() ==> 0 <= #[trigger] f[k] < n,
    ensures
        exists|s: int, t: int| 0 <= s < t < f.len() && f[s] == f[t],
{
    if !(exists|s: int, t: int| 0 <= s < t < f.len() && f[s] == f[t]) {
        assert(f.no_duplicates()) by {
            assert forall|s: int, t: int| 0 <= s < f.len() && 0 <= t < f.len() && s != t implies f[s]
                != f[t] by {
                if s < t {
                    assert(!(f[s] == f[t]));
                } else {
                    assert(!(f[t] == f[s]));
                }
            }
        }
        f.unique_seq_to_set();
        lemma_int_range(0, n);
        assert(f.to_set().subset_of(set_int_range(0, n)));
        vstd::set_lib::lemma_len_subset(f.to_set(), set_int_range(0, n));
    }
}

/// When every remaining entry is blocked by another remaining entry, some cycle exists.
proof fn lemma_blocked_entries_form_cycle(
    graph: Seq<(CommitmentId, Vec<CommitmentId>)>,
    removed: Seq<bool>,
    start: int,
)
    requires
        removed.len() == graph.len(),
        0 <= start < graph.len(),
        !removed[start],
        forall|i: int| 0 <= i < graph.len() && !removed[i] ==> !is_ready(graph, removed, i),
    ensures
        !is_acyclic(graph),
{
    let n = graph.len() as int;
    let walk = Seq::new((n + 1) as nat, |k: int| blocked_walk(graph, removed, start, k as nat));
    assert forall|k: int| 0 <= k < walk.len() implies 0 <= #[trigger] walk[k] < n by {
        lemma_blocked_walk(graph, removed, start, k as nat);
    }
    lemma_pigeonhole(walk, n);
    let (s, t) = choose|s: int, t: int| 0 <= s < t < walk.len() && walk[s] == walk[t];
    let path = Seq::new((t - s + 1) as nat, |k: int| key_text(graph, blocked_walk(graph, removed, start, (s + k) as nat)));
    assert forall|k: int| 0 <= k < path.len() - 1 implies has_edge(graph, #[trigger] path[k], path[k + 1]) by {
        lemma_blocked_walk(graph, removed, start, (s + k) as nat);
        let cur = blocked_walk(graph, removed, start, (s + k) as nat);
        let nxt = blocked_walk(graph, removed, start, (s + k + 1) as nat);
        let d = choose|d: int| 0 <= d < graph[cur].1@.len() && #[trigger] dep_text(graph, cur, d) == key_text(graph, nxt);
        assert(key_text(graph, cur) == path[k]);
        assert(key_text(graph, nxt) == path[k + 1]);
    }
    assert(walk[s] == blocked_walk(graph, removed, start, s as nat));
    assert(walk[t] == blocked_walk(graph, removed, start, t as nat));
    assert(is_cycle(graph, path));
}

/// Prove that a typed commitment dependency graph is acyclic: `Ok` exactly when no
/// commitment depends on itself through the listed dependencies.
pub fn validate_acyclic(graph: &Vec<(CommitmentId, Vec<CommitmentId>)>) -> (r: Result<(), DomainError>)
    ensures
        r is Ok <==> is_acyclic(graph@),
        r is Err ==> r == Err::<(), DomainError>(DomainError::DependencyCycle),
{
    let n = graph.len();
    let mut removed: Vec<bool> = Vec::new();
    let mut k: usize = 0;
    while k < n
        invariant
            k <= n,
            n == graph.len(),
            removed@ == Seq::new(k as nat, |x: int| false),
        decreases n - k,
    {
        removed.push(false);
        k = k + 1;
        assert(removed@ =~= Seq::new(k as nat, |x: int| false));
    }
    let ghost mut time: Seq<int> = Seq::new(n as nat, |x: int| 0);
    let ghost mut clock: int = 0;
    let mut count: usize = 0;
    proof {
        lemma_count_removed_zero(n as nat);
    }
    loop
        invariant
            n == graph.len(),
            removed.len() == n,
            time.len() == n,
            count == count_removed(removed@),
            count <= n,
            0 <= clock,
            forall|i: int| 0 <= i < n && removed@[i] ==> 0 <= #[trigger] time[i] < clock,
            removal_order(graph@, removed@, time),
        decreases n - count,
    {
        let mut changed = false;
        let mut i: usize = 0;
        let ghost round_start = count;
        while i < n
            invariant
                n == graph.len(),
                i <= n,
                removed.len() == n,
                time.len() == n,
                count == count_removed(removed@),
                count <= n,
                0 <= clock,
                round_start <= count,
                changed ==> round_start < count,
                forall|x: int| 0 <= x < n && removed@[x] ==> 0 <= #[trigger] time[x] < clock,
                removal_order(graph@, removed@, time),
                !changed ==> forall|x: int| 0 <= x < i && !removed@[x] ==> !is_ready(graph@, removed@, x),
            decreases n - i,
        {
            if !removed[i] && entry_is_ready(graph, &removed, i) {
                proof {
                    let old_removed = removed@;
                    lemma_count_removed_update(old_removed, i as int);
                    lemma_count_removed_bound(old_removed.update(i as int, true));
                    assert forall|a: int, d: int, j: int|
                        0 <= a < n && old_removed.update(i as int, true)[a] && 0 <= d < graph@[a].1@.len()
                            && 0 <= j < n && #[trigger] dep_text(graph@, a, d) == #[trigger] key_text(graph@, j)
                        implies old_removed.update(i as int, true)[j] && time.update(i as int, clock)[j]
                            < time.update(i as int, clock)[a] by {
                        if a == i {
                            assert(!is_live(graph@, old_removed, dep_text(graph@, a, d)));
                            assert(old_removed[j]);
                            assert(time[j] < clock);
                        } else {
                            assert(old_removed[a]);
                            assert(old_removed[j]);
                        }
                    }
                    time = time.update(i as int, clock);
                    clock = clock + 1;
                }
                removed.set(i, true);
                count = count + 1;
                changed = true;
            }
            i = i + 1;
        }
        if !changed {
            let mut all_removed = true;
            let mut j: usize = 0;
            while j < n
                invariant
                    n == graph.len(),
                    removed.len() == n,
                    j <= n,
                    all_removed == forall|x: int| 0 <= x < j ==> removed@[x],
                decreases n - j,
            {
                if !removed[j] {
                    all_removed = false;
                }
                j = j + 1;
            }
            if all_removed {
                proof {
                    assert forall|path: Seq<Seq<char>>| !is_cycle(graph@, path) by {
                        lemma_removal_order_excludes_cycles(graph@, removed@, time, path);
                    }
                }
                return Ok(());
            } else {
                proof {
                    let start = choose|x: int| 0 <= x < n && !removed@[x];
                    lemma_blocked_entries_form_cycle(graph@, removed@, start);
                }
                return Err(DomainError::DependencyCycle);
            }
        }
    }
}

proof fn lemma_count_removed_zero(m: nat)
    ensures
        count_removed(Seq::new(m, |x: int| false)) == 0,
    decreases m,
{
    if m > 0 {
        assert(Seq::new(m, |x: int| false).drop_last() =~= Seq::new((m - 1) as nat, |x: int| false));
        lemma_count_removed_zero((m - 1) as nat);
    }
}

} // verus!
