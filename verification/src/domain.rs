//! Goals, commitments, claims, attention items, outcomes and events.
use crate::error::DomainError;
use crate::ids::{
    AcceptanceRef, AttentionId, CommitmentId, GoalId, GuardId, HumanDecisionRef, TethersActionRef,
    TethersContractRef, WorkerId,
};
use crate::state_machine::{legal_transition, transition_error, validate_transition, ResumeTarget};
use crate::text::{is_blank, str_is_blank};
use crate::values::{ClaimEpoch, GoalRevision, MonotonicInstant, Timestamp};
use vstd::prelude::*;

verus! {

#[derive(Clone, Copy, Debug, PartialEq, Eq, Structural)]
pub enum GoalState {
    Active,
    Completed,
    Cancelled,
    Abandoned,
}

/// The observable content of a goal.
pub struct GoalSpecView {
    pub goal_id: GoalId,
    pub revision: GoalRevision,
    pub description: Seq<char>,
    pub state: GoalState,
    pub created_at: Timestamp,
}

/// A goal at one revision; revisions are append-only values.
#[derive(Debug, PartialEq, Eq)]
pub struct GoalSpec {
    goal_id: GoalId,
    revision: GoalRevision,
    description: String,
    state: GoalState,
    created_at: Timestamp,
}

impl View for GoalSpec {
    type V = GoalSpecView;

    closed spec fn view(&self) -> GoalSpecView {
        GoalSpecView {
            goal_id: self.goal_id,
            revision: self.revision,
            description: self.description@,
            state: self.state,
            created_at: self.created_at,
        }
    }
}

impl Clone for GoalSpec {
    fn clone(&self) -> (r: Self)
        ensures
            r@ == self@,
    {
        GoalSpec {
            goal_id: self.goal_id.clone(),
            revision: self.revision,
            description: self.description.clone(),
            state: self.state,
            created_at: self.created_at,
        }
    }
}

impl GoalSpec {
    /// A goal at `revision`, unless its description is blank.
    pub fn new(
        goal_id: GoalId,
        revision: GoalRevision,
        description: &str,
        state: GoalState,
        created_at: Timestamp,
    ) -> (r: Result<Self, DomainError>)
        ensures
            match r {
                Ok(g) => !is_blank(description@) && g@ == (GoalSpecView {
                    goal_id,
                    revision,
                    description: description@,
                    state,
                    created_at,
                }),
                Err(e) => is_blank(description@) && e == DomainError::EmptyDescription,
            },
    {
        let description = nonempty_description(description)?;
        Ok(GoalSpec { goal_id, revision, description, state, created_at })
    }

    /// Create the next append-only goal revision without rewriting this value.
    pub fn revised(&self, revision: GoalRevision, description: &str) -> (r: Result<
        Self,
        DomainError,
    >)
        ensures
            match r {
                Ok(g) => {
                    &&& self@.revision@ < u64::MAX
                    &&& revision@ == self@.revision@ + 1
                    &&& !is_blank(description@)
                    &&& g@ == GoalSpecView { revision, description: description@, ..self@ }
                },
                Err(e) => if self@.revision@ == u64::MAX {
                    e == DomainError::RevisionExhausted
                } else if revision@ != self@.revision@ + 1 {
                    e matches DomainError::InvalidGoalRevision { expected, actual } && expected@
                        == self@.revision@ + 1 && actual == revision
                } else {
                    is_blank(description@) && e == DomainError::EmptyDescription
                },
            },
    {
        let expected = self.revision.next()?;
        if revision.value() != expected.value() {
            return Err(DomainError::InvalidGoalRevision { expected, actual: revision });
        }
        Ok(GoalSpec {
            goal_id: self.goal_id.clone(),
            revision,
            description: nonempty_description(description)?,
            state: self.state,
            created_at: self.created_at,
        })
    }

    pub fn goal_id(&self) -> (r: &GoalId)
        ensures
            *r == self@.goal_id,
    {
        &self.goal_id
    }

    pub fn revision(&self) -> (r: GoalRevision)
        ensures
            r == self@.revision,
    {
        self.revision
    }

    pub fn description(&self) -> (r: &str)
        ensures
            r@ == self@.description,
    {
        self.description.as_str()
    }

    pub fn state(&self) -> (r: &GoalState)
        ensures
            *r == self@.state,
    {
        &self.state
    }

    pub fn created_at(&self) -> (r: Timestamp)
        ensures
            r == self@.created_at,
    {
        self.created_at
    }
}

#[derive(Debug, PartialEq, Eq)]
pub enum Prerequisite {
    Commitment(CommitmentId),
    TethersVerification(TethersContractRef),
    HumanDecision(HumanDecisionRef),
}

impl Clone for Prerequisite {
    fn clone(&self) -> (r: Self)
        ensures
            r == *self,
    {
        match self {
            Prerequisite::Commitment(id) => Prerequisite::Commitment(id.clone()),
            Prerequisite::TethersVerification(id) => Prerequisite::TethersVerification(id.clone()),
            Prerequisite::HumanDecision(id) => Prerequisite::HumanDecision(id.clone()),
        }
    }
}

/// A prerequisite with its reference taken by its text.
pub enum PrerequisiteView {
    Commitment(Seq<char>),
    TethersVerification(Seq<char>),
    HumanDecision(Seq<char>),
}

impl View for Prerequisite {
    type V = PrerequisiteView;

    open spec fn view(&self) -> PrerequisiteView {
        match *self {
            Prerequisite::Commitment(id) => PrerequisiteView::Commitment(id@),
            Prerequisite::TethersVerification(id) => PrerequisiteView::TethersVerification(id@),
            Prerequisite::HumanDecision(id) => PrerequisiteView::HumanDecision(id@),
        }
    }
}

/// Two prerequisites name the same kind of reference with the same text.
pub open spec fn same_prerequisite(a: Prerequisite, b: Prerequisite) -> bool {
    match (a, b) {
        (Prerequisite::Commitment(x), Prerequisite::Commitment(y)) => x@ == y@,
        (Prerequisite::TethersVerification(x), Prerequisite::TethersVerification(y)) => x@ == y@,
        (Prerequisite::HumanDecision(x), Prerequisite::HumanDecision(y)) => x@ == y@,
        _ => false,
    }
}

impl Prerequisite {
    /// Exact equality of kind and reference text.
    pub fn same_as(&self, other: &Prerequisite) -> (r: bool)
        ensures
            r == same_prerequisite(*self, *other),
    {
        match (self, other) {
            (Prerequisite::Commitment(x), Prerequisite::Commitment(y)) => x.same_as(y),
            (Prerequisite::TethersVerification(x), Prerequisite::TethersVerification(y)) => x.same_as(
                y,
            ),
            (Prerequisite::HumanDecision(x), Prerequisite::HumanDecision(y)) => x.same_as(y),
            _ => false,
        }
    }
}

/// The observable content of a worker's claim.
pub struct ClaimLeaseView {
    pub worker_id: WorkerId,
    pub epoch: ClaimEpoch,
    pub last_heartbeat: MonotonicInstant,
}

/// A worker's current claim on a commitment.
#[derive(Debug, PartialEq, Eq)]
pub struct ClaimLease {
    worker_id: WorkerId,
    epoch: ClaimEpoch,
    last_heartbeat: MonotonicInstant,
}

impl View for ClaimLease {
    type V = ClaimLeaseView;

    closed spec fn view(&self) -> ClaimLeaseView {
        ClaimLeaseView {
            worker_id: self.worker_id,
            epoch: self.epoch,
            last_heartbeat: self.last_heartbeat,
        }
    }
}

impl Clone for ClaimLease {
    fn clone(&self) -> (r: Self)
        ensures
            r == *self,
    {
        ClaimLease {
            worker_id: self.worker_id.clone(),
            epoch: self.epoch,
            last_heartbeat: self.last_heartbeat,
        }
    }
}

impl ClaimLease {
    pub fn worker_id(&self) -> (r: &WorkerId)
        ensures
            *r == self@.worker_id,
    {
        &self.worker_id
    }

    pub fn epoch(&self) -> (r: ClaimEpoch)
        ensures
            r == self@.epoch,
    {
        self.epoch
    }

    pub fn last_heartbeat(&self) -> (r: MonotonicInstant)
        ensures
            r == self@.last_heartbeat,
    {
        self.last_heartbeat
    }
}

#[derive(Debug, PartialEq, Eq)]
pub enum WaitingReason {
    Prerequisite(CommitmentId),
    Authority(TethersActionRef),
    HumanDecision(HumanDecisionRef),
    Verification(TethersContractRef),
    UncertainAction(TethersActionRef),
    External(String),
}

impl Clone for WaitingReason {
    fn clone(&self) -> (r: Self)
        ensures
            r == *self,
    {
        match self {
            WaitingReason::Prerequisite(id) => WaitingReason::Prerequisite(id.clone()),
            WaitingReason::Authority(id) => WaitingReason::Authority(id.clone()),
            WaitingReason::HumanDecision(id) => WaitingReason::HumanDecision(id.clone()),
            WaitingReason::Verification(id) => WaitingReason::Verification(id.clone()),
            WaitingReason::UncertainAction(id) => WaitingReason::UncertainAction(id.clone()),
            WaitingReason::External(text) => WaitingReason::External(text.clone()),
        }
    }
}

impl WaitingReason {
    #[verifier::when_used_as_spec(spec_is_uncertain_action)]
    pub fn is_uncertain_action(&self) -> (r: bool)
        ensures
            r == self.spec_is_uncertain_action(),
    {
        matches!(self, WaitingReason::UncertainAction(_))
    }

    pub open spec fn spec_is_uncertain_action(&self) -> bool {
        *self is UncertainAction
    }
}

/// A waiting reason with its reference taken by its text.
pub enum WaitingReasonView {
    Prerequisite(Seq<char>),
    Authority(Seq<char>),
    HumanDecision(Seq<char>),
    Verification(Seq<char>),
    UncertainAction(Seq<char>),
    External(Seq<char>),
}

impl View for WaitingReason {
    type V = WaitingReasonView;

    open spec fn view(&self) -> WaitingReasonView {
        match *self {
            WaitingReason::Prerequisite(id) => WaitingReasonView::Prerequisite(id@),
            WaitingReason::Authority(id) => WaitingReasonView::Authority(id@),
            WaitingReason::HumanDecision(id) => WaitingReasonView::HumanDecision(id@),
            WaitingReason::Verification(id) => WaitingReasonView::Verification(id@),
            WaitingReason::UncertainAction(id) => WaitingReasonView::UncertainAction(id@),
            WaitingReason::External(text) => WaitingReasonView::External(text@),
        }
    }
}

#[derive(Debug, PartialEq, Eq)]
pub enum CommitmentState {
    Proposed,
    Ready,
    Claimed,
    Working,
    Waiting(WaitingReason),
    RecoveryPending,
    CompletionProposed,
    Completed,
    Cancelled,
    Abandoned,
}

impl Clone for CommitmentState {
    fn clone(&self) -> (r: Self)
        ensures
            r == *self,
    {
        match self {
            CommitmentState::Proposed => CommitmentState::Proposed,
            CommitmentState::Ready => CommitmentState::Ready,
            CommitmentState::Claimed => CommitmentState::Claimed,
            CommitmentState::Working => CommitmentState::Working,
            CommitmentState::Waiting(reason) => CommitmentState::Waiting(reason.clone()),
            CommitmentState::RecoveryPending => CommitmentState::RecoveryPending,
            CommitmentState::CompletionProposed => CommitmentState::CompletionProposed,
            CommitmentState::Completed => CommitmentState::Completed,
            CommitmentState::Cancelled => CommitmentState::Cancelled,
            CommitmentState::Abandoned => CommitmentState::Abandoned,
        }
    }
}

/// A commitment state with its waiting reason taken by its view.
pub enum CommitmentStateView {
    Proposed,
    Ready,
    Claimed,
    Working,
    Waiting(WaitingReasonView),
    RecoveryPending,
    CompletionProposed,
    Completed,
    Cancelled,
    Abandoned,
}

impl View for CommitmentState {
    type V = CommitmentStateView;

    open spec fn view(&self) -> CommitmentStateView {
        match *self {
            CommitmentState::Proposed => CommitmentStateView::Proposed,
            CommitmentState::Ready => CommitmentStateView::Ready,
            CommitmentState::Claimed => CommitmentStateView::Claimed,
            CommitmentState::Working => CommitmentStateView::Working,
            CommitmentState::Waiting(reason) => CommitmentStateView::Waiting(reason@),
            CommitmentState::RecoveryPending => CommitmentStateView::RecoveryPending,
            CommitmentState::CompletionProposed => CommitmentStateView::CompletionProposed,
            CommitmentState::Completed => CommitmentStateView::Completed,
            CommitmentState::Cancelled => CommitmentStateView::Cancelled,
            CommitmentState::Abandoned => CommitmentStateView::Abandoned,
        }
    }
}

impl CommitmentState {
    pub open spec fn spec_is_terminal(&self) -> bool {
        ||| *self is Completed
        ||| *self is Cancelled
        ||| *self is Abandoned
    }

    /// Completed, cancelled and abandoned are the terminal states.
    #[verifier::when_used_as_spec(spec_is_terminal)]
    pub fn is_terminal(&self) -> (r: bool)
        ensures
            r == self.spec_is_terminal(),
    {
        matches!(
            self,
            CommitmentState::Completed | CommitmentState::Cancelled | CommitmentState::Abandoned
        )
    }

    pub open spec fn spec_requires_active_claim(&self) -> bool {
        ||| *self is Claimed
        ||| *self is Working
        ||| *self is CompletionProposed
        ||| (*self matches CommitmentState::Waiting(reason) && !reason.spec_is_uncertain_action())
    }

    /// States whose operational meaning includes a live worker claim.
    #[verifier::when_used_as_spec(spec_requires_active_claim)]
    pub fn requires_active_claim(&self) -> (r: bool)
        ensures
            r == self.spec_requires_active_claim(),
    {
        match self {
            CommitmentState::Claimed | CommitmentState::Working
            | CommitmentState::CompletionProposed => true,
            CommitmentState::Waiting(reason) => !reason.is_uncertain_action(),
            _ => false,
        }
    }
}

/// The observable content of a commitment.
pub struct CommitmentView {
    pub commitment_id: CommitmentId,
    pub goal_id: GoalId,
    pub parent_id: Option<CommitmentId>,
    pub description: Seq<char>,
    pub state: CommitmentState,
    pub prerequisites: Seq<Prerequisite>,
    pub acceptance_refs: Seq<AcceptanceRef>,
    pub claim: Option<ClaimLease>,
    pub outstanding_action: Option<TethersActionRef>,
    pub last_claim_epoch: Option<ClaimEpoch>,
}

impl CommitmentView {
    /// The claim agrees with the state and with the durable epoch high-water mark.
    pub open spec fn claim_consistent(self) -> bool {
        &&& (self.claim matches Some(c) ==> self.last_claim_epoch == Some(c@.epoch))
        &&& (self.state.spec_requires_active_claim() <==> self.claim is Some)
    }

    /// A held claim carries the durable epoch high-water mark.
    pub open spec fn epoch_consistent(self) -> bool {
        self.claim matches Some(c) ==> self.last_claim_epoch == Some(c@.epoch)
    }

    /// What one mutation may do to the claim and its epoch: keep the high-water mark and
    /// keep or end the claim, or grant a new claim to an unclaimed commitment under the
    /// next epoch (the first epoch when none was ever granted), which becomes the mark.
    pub open spec fn epoch_step_to(self, next: CommitmentView) -> bool {
        ||| {
            &&& next.last_claim_epoch == self.last_claim_epoch
            &&& (next.claim == self.claim || next.claim is None)
        }
        ||| {
            &&& self.claim is None
            &&& next.claim matches Some(c)
            &&& next.last_claim_epoch == Some(c@.epoch)
            &&& match self.last_claim_epoch {
                Some(e) => c@.epoch@ == e@ + 1,
                None => c@.epoch@ == 1,
            }
        }
    }

    /// The error that fences a request by `worker_id` at `epoch`, if any.
    pub open spec fn claim_error(self, worker_id: WorkerId, epoch: ClaimEpoch) -> Option<
        DomainError,
    > {
        match self.claim {
            None => Some(DomainError::NotClaimed),
            Some(c) => if c@.worker_id@ != worker_id@ {
                Some(DomainError::ClaimOwnerMismatch { expected: c@.worker_id, actual: worker_id })
            } else if c@.epoch != epoch {
                Some(DomainError::StaleEpoch { expected: c@.epoch, actual: epoch })
            } else {
                None
            },
        }
    }

    /// The outcome of moving to `next`, with no claim check.
    pub open spec fn step(self, next: CommitmentState) -> Result<(), DomainError> {
        if legal_transition(self.state, next) {
            Ok(())
        } else {
            Err(transition_error(self.state, next))
        }
    }

    /// The outcome of moving to `next` on behalf of `worker_id` at `epoch`.
    pub open spec fn claimed_step(
        self,
        worker_id: WorkerId,
        epoch: ClaimEpoch,
        next: CommitmentState,
    ) -> Result<(), DomainError> {
        match self.claim_error(worker_id, epoch) {
            Some(e) => Err(e),
            None => self.step(next),
        }
    }

    /// Why a restored commitment would be inconsistent, if it would be.
    pub open spec fn restore_error(
        description: Seq<char>,
        state: CommitmentState,
        claim: Option<(WorkerId, ClaimEpoch, MonotonicInstant)>,
        outstanding_action: Option<TethersActionRef>,
        last_claim_epoch: Option<ClaimEpoch>,
    ) -> Option<DomainError> {
        if is_blank(description) {
            Some(DomainError::EmptyDescription)
        } else if claim matches Some(c) && Some(c.1) != last_claim_epoch {
            Some(
                DomainError::InvalidRestoredState {
                    reason: "active claim epoch must equal the durable high-water mark",
                },
            )
        } else if state.spec_requires_active_claim() != (claim is Some) {
            Some(DomainError::InvalidRestoredState { reason: "commitment state and active claim disagree" })
        } else if outstanding_action matches Some(a) && !action_fits_state(state, a) {
            Some(
                DomainError::InvalidRestoredState {
                    reason: "outstanding action disagrees with commitment state",
                },
            )
        } else if state matches CommitmentState::Waiting(WaitingReason::UncertainAction(_))
            && claim is Some {
            Some(
                DomainError::InvalidRestoredState {
                    reason: "uncertain waiting must not retain an active claim",
                },
            )
        } else {
            None
        }
    }
}

/// Epoch high-water mark `a` is no later than `b`: none yet, or both set and `a` not above `b`.
pub open spec fn epoch_not_after(a: Option<ClaimEpoch>, b: Option<ClaimEpoch>) -> bool {
    match a {
        None => true,
        Some(x) => b matches Some(y) && x@ <= y@,
    }
}

/// One mutation keeps a held claim at the durable high-water mark, never lowers the mark,
/// and changes it only by granting a new claim under the next epoch.
pub proof fn lemma_epoch_step_keeps_mark(before: CommitmentView, after: CommitmentView)
    requires
        before.epoch_consistent(),
        before.epoch_step_to(after),
    ensures
        after.epoch_consistent(),
        epoch_not_after(before.last_claim_epoch, after.last_claim_epoch),
        after.last_claim_epoch != before.last_claim_epoch ==> {
            &&& before.claim is None
            &&& after.claim matches Some(c)
            &&& after.last_claim_epoch == Some(c@.epoch)
            &&& match before.last_claim_epoch {
                Some(e) => c@.epoch@ == e@ + 1,
                None => c@.epoch@ == 1,
            }
        },
{
}

/// Along any history of mutations that starts from a commitment whose claim carries the
/// durable mark (as `Commitment::new` and `Commitment::restore` give), every held claim
/// carries the mark and the mark never decreases.
pub proof fn lemma_epoch_history_keeps_mark(history: Seq<CommitmentView>)
    requires
        history.len() > 0,
        history[0].epoch_consistent(),
        forall|i: int| 0 <= i < history.len() - 1 ==> (#[trigger] history[i]).epoch_step_to(
            history[i + 1],
        ),
    ensures
        forall|i: int| 0 <= i < history.len() ==> (#[trigger] history[i]).epoch_consistent(),
        forall|i: int, j: int|
            0 <= i <= j < history.len() ==> epoch_not_after(
                #[trigger] history[i].last_claim_epoch,
                #[trigger] history[j].last_claim_epoch,
            ),
    decreases history.len(),
{
    if history.len() > 1 {
        let prefix = history.drop_last();
        assert forall|i: int| 0 <= i < prefix.len() - 1 implies (#[trigger] prefix[i]).epoch_step_to(
            prefix[i + 1],
        ) by {
            assert(prefix[i] == history[i]);
            assert(prefix[i + 1] == history[i + 1]);
            assert(history[i].epoch_step_to(history[i + 1]));
        }
        lemma_epoch_history_keeps_mark(prefix);
        let n = history.len() - 1;
        assert(history[n - 1] == prefix[n - 1]);
        assert(history[n - 1].epoch_step_to(history[n]));
        lemma_epoch_step_keeps_mark(history[n - 1], history[n]);
        assert forall|i: int| 0 <= i < history.len() implies (
        #[trigger] history[i]).epoch_consistent() by {
            if i < n {
                assert(prefix[i] == history[i]);
            }
        }
        assert forall|i: int, j: int| 0 <= i <= j < history.len() implies epoch_not_after(
            #[trigger] history[i].last_claim_epoch,
            #[trigger] history[j].last_claim_epoch,
        ) by {
            if j < n {
                assert(prefix[i] == history[i]);
                assert(prefix[j] == history[j]);
                assert(epoch_not_after(prefix[i].last_claim_epoch, prefix[j].last_claim_epoch));
            } else if i < n {
                assert(prefix[i] == history[i]);
                assert(epoch_not_after(prefix[i].last_claim_epoch, prefix[n - 1].last_claim_epoch));
            }
        }
    }
}

/// The current claimant, at its current epoch, can carry a commitment along the whole
/// documented path: start a claimed commitment, wait or propose completion from working,
/// resume an ordinary wait, and complete a proposed completion.
pub proof fn lemma_claimant_can_follow_the_lifecycle(
    v: CommitmentView,
    worker_id: WorkerId,
    epoch: ClaimEpoch,
    reason: WaitingReason,
)
    requires
        v.claim matches Some(c) && c@.worker_id@ == worker_id@ && c@.epoch == epoch,
    ensures
        v.state is Claimed ==> v.claimed_step(worker_id, epoch, CommitmentState::Working) is Ok,
        v.state is Working ==> v.claimed_step(
            worker_id,
            epoch,
            CommitmentState::CompletionProposed,
        ) is Ok,
        v.state is Working ==> v.claimed_step(worker_id, epoch, CommitmentState::Waiting(reason))
            is Ok,
        v.state is Waiting ==> v.claimed_step(worker_id, epoch, CommitmentState::Ready) is Ok
            && v.claimed_step(worker_id, epoch, CommitmentState::Working) is Ok,
        v.state is CompletionProposed ==> v.claimed_step(
            worker_id,
            epoch,
            CommitmentState::Completed,
        ) is Ok,
{
}

/// Rows that agree with themselves are restored: a non-blank description, a claim exactly
/// when the state needs one and then at the durable epoch, and an outstanding action only
/// while working, in recovery, or waiting on that very uncertain action.
pub proof fn lemma_consistent_rows_restore(
    description: Seq<char>,
    state: CommitmentState,
    claim: Option<(WorkerId, ClaimEpoch, MonotonicInstant)>,
    outstanding_action: Option<TethersActionRef>,
    last_claim_epoch: Option<ClaimEpoch>,
)
    requires
        !is_blank(description),
        claim matches Some(c) ==> last_claim_epoch == Some(c.1),
        state.spec_requires_active_claim() == (claim is Some),
        outstanding_action matches Some(a) ==> {
            ||| state is Working
            ||| state is RecoveryPending
            ||| state matches CommitmentState::Waiting(WaitingReason::UncertainAction(w)) && w@
                == a@
        },
    ensures
        CommitmentView::restore_error(description, state, claim, outstanding_action, last_claim_epoch)
            is None,
{
}

/// An outstanding action is refused in every state but working, recovery, and waiting on
/// that very uncertain action.
pub proof fn lemma_misplaced_action_is_refused(
    description: Seq<char>,
    state: CommitmentState,
    claim: Option<(WorkerId, ClaimEpoch, MonotonicInstant)>,
    action: TethersActionRef,
    last_claim_epoch: Option<ClaimEpoch>,
)
    requires
        !is_blank(description),
        claim matches Some(c) ==> last_claim_epoch == Some(c.1),
        state.spec_requires_active_claim() == (claim is Some),
        !(state is Working),
        !(state is RecoveryPending),
        !(state matches CommitmentState::Waiting(WaitingReason::UncertainAction(w)) && w@ == action@),
    ensures
        CommitmentView::restore_error(description, state, claim, Some(action), last_claim_epoch)
            == Some(
            DomainError::InvalidRestoredState {
                reason: "outstanding action disagrees with commitment state",
            },
        ),
{
}

/// An outstanding action is consistent with working, recovery, or waiting on that very action.
pub open spec fn action_fits_state(state: CommitmentState, action: TethersActionRef) -> bool {
    match state {
        CommitmentState::Working => true,
        CommitmentState::RecoveryPending => true,
        CommitmentState::Waiting(WaitingReason::UncertainAction(w)) => w@ == action@,
        _ => false,
    }
}

/// A unit of work toward a goal, with its claim and fencing state.
#[derive(Debug, PartialEq, Eq)]
pub struct Commitment {
    commitment_id: CommitmentId,
    goal_id: GoalId,
    parent_id: Option<CommitmentId>,
    description: String,
    state: CommitmentState,
    prerequisites: Vec<Prerequisite>,
    acceptance_refs: Vec<AcceptanceRef>,
    claim: Option<ClaimLease>,
    outstanding_action: Option<TethersActionRef>,
    last_claim_epoch: Option<ClaimEpoch>,
}

impl View for Commitment {
    type V = CommitmentView;

    closed spec fn view(&self) -> CommitmentView {
        CommitmentView {
            commitment_id: self.commitment_id,
            goal_id: self.goal_id,
            parent_id: self.parent_id,
            description: self.description@,
            state: self.state,
            prerequisites: self.prerequisites@,
            acceptance_refs: self.acceptance_refs@,
            claim: self.claim,
            outstanding_action: self.outstanding_action,
            last_claim_epoch: self.last_claim_epoch,
        }
    }
}

fn clone_prerequisites(v: &Vec<Prerequisite>) -> (r: Vec<Prerequisite>)
    ensures
        r@ == v@,
{
    let mut r: Vec<Prerequisite> = Vec::new();
    let mut i: usize = 0;
    while i < v.len()
        invariant
            i <= v.len(),
            r@ == v@.take(i as int),
        decreases v.len() - i,
    {
        r.push(v[i].clone());
        i = i + 1;
        assert(r@ =~= v@.take(i as int));
    }
    assert(v@.take(v.len() as int) =~= v@);
    r
}

fn clone_acceptance_refs(v: &Vec<AcceptanceRef>) -> (r: Vec<AcceptanceRef>)
    ensures
        r@ == v@,
{
    let mut r: Vec<AcceptanceRef> = Vec::new();
    let mut i: usize = 0;
    while i < v.len()
        invariant
            i <= v.len(),
            r@ == v@.take(i as int),
        decreases v.len() - i,
    {
        r.push(v[i].clone());
        i = i + 1;
        assert(r@ =~= v@.take(i as int));
    }
    assert(v@.take(v.len() as int) =~= v@);
    r
}

fn clone_optional_id(v: &Option<CommitmentId>) -> (r: Option<CommitmentId>)
    ensures
        r == *v,
{
    match v {
        Some(id) => Some(id.clone()),
        None => None,
    }
}

fn clone_optional_action(v: &Option<TethersActionRef>) -> (r: Option<TethersActionRef>)
    ensures
        r == *v,
{
    match v {
        Some(id) => Some(id.clone()),
        None => None,
    }
}

impl Clone for Commitment {
    fn clone(&self) -> (r: Self)
        ensures
            r@ == self@,
    {
        Commitment {
            commitment_id: self.commitment_id.clone(),
            goal_id: self.goal_id.clone(),
            parent_id: clone_optional_id(&self.parent_id),
            description: self.description.clone(),
            state: self.state.clone(),
            prerequisites: clone_prerequisites(&self.prerequisites),
            acceptance_refs: clone_acceptance_refs(&self.acceptance_refs),
            claim: match &self.claim {
                Some(c) => Some(c.clone()),
                None => None,
            },
            outstanding_action: clone_optional_action(&self.outstanding_action),
            last_claim_epoch: self.last_claim_epoch,
        }
    }
}

impl Commitment {
    /// A new proposed commitment with no claim, action or epoch history.
    pub fn new(
        commitment_id: CommitmentId,
        goal_id: GoalId,
        parent_id: Option<CommitmentId>,
        description: &str,
        prerequisites: Vec<Prerequisite>,
        acceptance_refs: Vec<AcceptanceRef>,
    ) -> (r: Result<Self, DomainError>)
        ensures
            match r {
                Ok(c) => !is_blank(description@) && c@ == (CommitmentView {
                    commitment_id,
                    goal_id,
                    parent_id,
                    description: description@,
                    state: CommitmentState::Proposed,
                    prerequisites: prerequisites@,
                    acceptance_refs: acceptance_refs@,
                    claim: None,
                    outstanding_action: None,
                    last_claim_epoch: None,
                }),
                Err(e) => is_blank(description@) && e == DomainError::EmptyDescription,
            },
            r matches Ok(c) ==> c@.epoch_consistent(),
    {
        Ok(Commitment {
            commitment_id,
            goal_id,
            parent_id,
            description: nonempty_description(description)?,
            state: CommitmentState::Proposed,
            prerequisites,
            acceptance_refs,
            claim: None,
            outstanding_action: None,
            last_claim_epoch: None,
        })
    }

    /// Rehydrate a commitment only after validating its persisted invariants.
    pub fn restore(
        commitment_id: CommitmentId,
        goal_id: GoalId,
        parent_id: Option<CommitmentId>,
        description: &str,
        state: CommitmentState,
        prerequisites: Vec<Prerequisite>,
        acceptance_refs: Vec<AcceptanceRef>,
        claim: Option<(WorkerId, ClaimEpoch, MonotonicInstant)>,
        outstanding_action: Option<TethersActionRef>,
        last_claim_epoch: Option<ClaimEpoch>,
    ) -> (r: Result<Self, DomainError>)
        ensures
            match CommitmentView::restore_error(
                description@,
                state,
                claim,
                outstanding_action,
                last_claim_epoch,
            ) {
                Some(e) => r == Err::<Self, DomainError>(e),
                None => r matches Ok(c) && c@ == (CommitmentView {
                    commitment_id,
                    goal_id,
                    parent_id,
                    description: description@,
                    state,
                    prerequisites: prerequisites@,
                    acceptance_refs: acceptance_refs@,
                    claim: c@.claim,
                    outstanding_action,
                    last_claim_epoch,
                }) && match claim {
                    Some(t) => c@.claim matches Some(l) && l@ == (ClaimLeaseView {
                        worker_id: t.0,
                        epoch: t.1,
                        last_heartbeat: t.2,
                    }),
                    None => c@.claim is None,
                },
            },
            r matches Ok(c) ==> c@.claim_consistent() && c@.epoch_consistent(),
    {
        let description = nonempty_description(description)?;
        let claim = match claim {
            Some(t) => Some(ClaimLease { worker_id: t.0, epoch: t.1, last_heartbeat: t.2 }),
            None => None,
        };
        let epoch_mismatch = match &claim {
            Some(active_claim) => match last_claim_epoch {
                Some(high_water) => active_claim.epoch() != high_water,
                None => true,
            },
            None => false,
        };
        if epoch_mismatch {
            return Err(
                DomainError::InvalidRestoredState {
                    reason: "active claim epoch must equal the durable high-water mark",
                },
            );
        }
        if state.requires_active_claim() != claim.is_some() {
            return Err(
                DomainError::InvalidRestoredState {
                    reason: "commitment state and active claim disagree",
                },
            );
        }
        if let Some(action_ref) = &outstanding_action {
            let action_state_is_valid = match &state {
                CommitmentState::Working | CommitmentState::RecoveryPending => true,
                CommitmentState::Waiting(WaitingReason::UncertainAction(waiting_action)) => {
                    waiting_action.same_as(action_ref)
                },
                _ => false,
            };
            if !action_state_is_valid {
                return Err(
                    DomainError::InvalidRestoredState {
                        reason: "outstanding action disagrees with commitment state",
                    },
                );
            }
        }
        if matches!(state, CommitmentState::Waiting(WaitingReason::UncertainAction(_)))
            && claim.is_some() {
            return Err(
                DomainError::InvalidRestoredState {
                    reason: "uncertain waiting must not retain an active claim",
                },
            );
        }
        Ok(Commitment {
            commitment_id,
            goal_id,
            parent_id,
            description,
            state,
            prerequisites,
            acceptance_refs,
            claim,
            outstanding_action,
            last_claim_epoch,
        })
    }

    pub fn commitment_id(&self) -> (r: &CommitmentId)
        ensures
            *r == self@.commitment_id,
    {
        &self.commitment_id
    }

    pub fn goal_id(&self) -> (r: &GoalId)
        ensures
            *r == self@.goal_id,
    {
        &self.goal_id
    }

    pub fn parent_id(&self) -> (r: Option<&CommitmentId>)
        ensures
            match r {
                Some(p) => self@.parent_id == Some(*p),
                None => self@.parent_id is None,
            },
    {
        match &self.parent_id {
            Some(p) => Some(p),
            None => None,
        }
    }

    pub fn description(&self) -> (r: &str)
        ensures
            r@ == self@.description,
    {
        self.description.as_str()
    }

    pub fn prerequisites(&self) -> (r: &[Prerequisite])
        ensures
            r@ == self@.prerequisites,
    {
        self.prerequisites.as_slice()
    }

    pub fn acceptance_refs(&self) -> (r: &[AcceptanceRef])
        ensures
            r@ == self@.acceptance_refs,
    {
        self.acceptance_refs.as_slice()
    }

    pub fn state(&self) -> (r: &CommitmentState)
        ensures
            *r == self@.state,
    {
        &self.state
    }

    pub fn claim(&self) -> (r: Option<&ClaimLease>)
        ensures
            match r {
                Some(c) => self@.claim == Some(*c),
                None => self@.claim is None,
            },
    {
        match &self.claim {
            Some(c) => Some(c),
            None => None,
        }
    }

    pub fn outstanding_action(&self) -> (r: Option<&TethersActionRef>)
        ensures
            match r {
                Some(a) => self@.outstanding_action == Some(*a),
                None => self@.outstanding_action is None,
            },
    {
        match &self.outstanding_action {
            Some(a) => Some(a),
            None => None,
        }
    }

    pub fn last_claim_epoch(&self) -> (r: Option<ClaimEpoch>)
        ensures
            r == self@.last_claim_epoch,
    {
        self.last_claim_epoch
    }

    /// Make the commitment ready for claiming.
    ///
    /// The claim is left as it is; from an ordinary wait this leaves a `Ready`
    /// commitment that still carries its claim.
    pub fn activate(&mut self) -> (r: Result<(), DomainError>)
        ensures
            r == old(self)@.step(CommitmentState::Ready),
            r is Ok ==> final(self)@ == (CommitmentView {
                state: CommitmentState::Ready,
                ..old(self)@
            }),
            r is Err ==> final(self)@ == old(self)@,
            old(self)@.claim_consistent() && !(old(self)@.state is Waiting)
                ==> final(self)@.claim_consistent(),
            old(self)@.epoch_step_to(final(self)@),
    {
        self.transition_to(CommitmentState::Ready)
    }

    /// Claim a ready commitment for `worker_id` under the next claim epoch.
    pub fn claim_for(&mut self, worker_id: WorkerId, last_heartbeat: MonotonicInstant) -> (r:
        Result<ClaimLease, DomainError>)
        ensures
            match r {
                Ok(lease) => {
                    &&& old(self)@.claim is None
                    &&& legal_transition(old(self)@.state, CommitmentState::Claimed)
                    &&& match old(self)@.last_claim_epoch {
                        Some(e) => e@ < u64::MAX && lease@.epoch@ == e@ + 1,
                        None => lease@.epoch@ == 1,
                    }
                    &&& lease@.worker_id == worker_id
                    &&& lease@.last_heartbeat == last_heartbeat
                    &&& final(self)@ == (CommitmentView {
                        state: CommitmentState::Claimed,
                        claim: Some(lease),
                        last_claim_epoch: Some(lease@.epoch),
                        ..old(self)@
                    })
                },
                Err(e) => {
                    &&& final(self)@ == old(self)@
                    &&& match old(self)@.claim {
                        Some(c) => e == (DomainError::CommitmentAlreadyClaimed {
                            worker_id: c@.worker_id,
                            epoch: c@.epoch,
                        }),
                        None => if !legal_transition(old(self)@.state, CommitmentState::Claimed) {
                            e == transition_error(old(self)@.state, CommitmentState::Claimed)
                        } else {
                            &&& old(self)@.last_claim_epoch matches Some(last)
                            &&& last@ == u64::MAX
                            &&& e == DomainError::EpochExhausted
                        },
                    }
                },
            },
            old(self)@.claim_consistent() ==> final(self)@.claim_consistent(),
            old(self)@.epoch_step_to(final(self)@),
    {
        if let Some(claim) = &self.claim {
            return Err(
                DomainError::CommitmentAlreadyClaimed {
                    worker_id: claim.worker_id().clone(),
                    epoch: claim.epoch(),
                },
            );
        }
        validate_transition(&self.state, &CommitmentState::Claimed)?;

        let epoch = match self.last_claim_epoch {
            Some(epoch) => epoch.next()?,
            None => ClaimEpoch::initial(),
        };
        let claim = ClaimLease { worker_id, epoch, last_heartbeat };
        self.last_claim_epoch = Some(epoch);
        self.claim = Some(claim.clone());
        self.state = CommitmentState::Claimed;
        Ok(claim)
    }

    /// Start work under the current claim.
    pub fn start(&mut self, worker_id: &WorkerId, epoch: ClaimEpoch) -> (r: Result<(), DomainError>)
        ensures
            r == old(self)@.claimed_step(*worker_id, epoch, CommitmentState::Working),
            r is Ok ==> final(self)@ == (CommitmentView {
                state: CommitmentState::Working,
                ..old(self)@
            }),
            r is Err ==> final(self)@ == old(self)@,
            old(self)@.claim_consistent() ==> final(self)@.claim_consistent(),
            old(self)@.epoch_step_to(final(self)@),
    {
        self.require_current_claim(worker_id, epoch)?;
        self.transition_to(CommitmentState::Working)
    }

    /// Wait under the current claim; waiting on an uncertain action gives up the claim.
    pub fn wait(&mut self, worker_id: &WorkerId, epoch: ClaimEpoch, reason: WaitingReason) -> (r:
        Result<(), DomainError>)
        ensures
            r == old(self)@.claimed_step(*worker_id, epoch, CommitmentState::Waiting(reason)),
            r is Ok ==> final(self)@ == (CommitmentView {
                state: CommitmentState::Waiting(reason),
                claim: if reason.spec_is_uncertain_action() {
                    None
                } else {
                    old(self)@.claim
                },
                ..old(self)@
            }),
            r is Err ==> final(self)@ == old(self)@,
            old(self)@.claim_consistent() ==> final(self)@.claim_consistent(),
            old(self)@.epoch_step_to(final(self)@),
    {
        self.require_current_claim(worker_id, epoch)?;
        let uncertain = reason.is_uncertain_action();
        self.transition_to(CommitmentState::Waiting(reason))?;
        if uncertain {
            self.claim = None;
        }
        Ok(())
    }

    /// Resume from a wait, either releasing the claim (`Ready`) or keeping it (`Working`).
    /// Waiting on an uncertain action cannot be resumed this way.
    pub fn resume(&mut self, worker_id: &WorkerId, epoch: ClaimEpoch, target: ResumeTarget) -> (r:
        Result<(), DomainError>)
        ensures
            match old(self)@.state {
                CommitmentState::Waiting(WaitingReason::UncertainAction(a)) => r == Err::<
                    (),
                    DomainError,
                >(DomainError::RecoveryRequired { action_ref: a }),
                _ => r == old(self)@.claimed_step(
                    *worker_id,
                    epoch,
                    resume_state(target),
                ),
            },
            r is Ok ==> final(self)@ == (CommitmentView {
                state: resume_state(target),
                claim: if target == ResumeTarget::Ready {
                    None
                } else {
                    old(self)@.claim
                },
                ..old(self)@
            }),
            r is Err ==> final(self)@ == old(self)@,
            old(self)@.claim_consistent() ==> final(self)@.claim_consistent(),
            old(self)@.epoch_step_to(final(self)@),
    {
        if let CommitmentState::Waiting(WaitingReason::UncertainAction(action_ref)) = &self.state {
            return Err(DomainError::RecoveryRequired { action_ref: action_ref.clone() });
        }
        self.require_current_claim(worker_id, epoch)?;
        let next_state = match target {
            ResumeTarget::Ready => CommitmentState::Ready,
            ResumeTarget::Working => CommitmentState::Working,
        };
        self.transition_to(next_state)?;
        if target == ResumeTarget::Ready {
            self.claim = None;
        }
        Ok(())
    }

    /// Propose completion under the current claim.
    pub fn propose_completion(&mut self, worker_id: &WorkerId, epoch: ClaimEpoch) -> (r: Result<
        (),
        DomainError,
    >)
        ensures
            r == old(self)@.claimed_step(*worker_id, epoch, CommitmentState::CompletionProposed),
            r is Ok ==> final(self)@ == (CommitmentView {
                state: CommitmentState::CompletionProposed,
                ..old(self)@
            }),
            r is Err ==> final(self)@ == old(self)@,
            old(self)@.claim_consistent() ==> final(self)@.claim_consistent(),
            old(self)@.epoch_step_to(final(self)@),
    {
        self.require_current_claim(worker_id, epoch)?;
        self.transition_to(CommitmentState::CompletionProposed)
    }

    /// Complete a proposed completion under the current claim, ending the claim.
    pub fn complete(&mut self, worker_id: &WorkerId, epoch: ClaimEpoch) -> (r: Result<
        (),
        DomainError,
    >)
        ensures
            r == old(self)@.claimed_step(*worker_id, epoch, CommitmentState::Completed),
            r is Ok ==> final(self)@ == (CommitmentView {
                state: CommitmentState::Completed,
                claim: None,
                ..old(self)@
            }),
            r is Err ==> final(self)@ == old(self)@,
            old(self)@.claim_consistent() ==> final(self)@.claim_consistent(),
            old(self)@.epoch_step_to(final(self)@),
    {
        self.require_current_claim(worker_id, epoch)?;
        self.transition_to(CommitmentState::Completed)?;
        self.claim = None;
        Ok(())
    }

    /// Cancel the commitment, ending any claim.
    pub fn cancel(&mut self) -> (r: Result<(), DomainError>)
        ensures
            r == old(self)@.step(CommitmentState::Cancelled),
            r is Ok ==> final(self)@ == (CommitmentView {
                state: CommitmentState::Cancelled,
                claim: None,
                ..old(self)@
            }),
            r is Err ==> final(self)@ == old(self)@,
            old(self)@.claim_consistent() ==> final(self)@.claim_consistent(),
            old(self)@.epoch_step_to(final(self)@),
    {
        self.transition_to(CommitmentState::Cancelled)?;
        self.claim = None;
        Ok(())
    }

    /// Abandon the commitment, ending any claim.
    pub fn abandon(&mut self) -> (r: Result<(), DomainError>)
        ensures
            r == old(self)@.step(CommitmentState::Abandoned),
            r is Ok ==> final(self)@ == (CommitmentView {
                state: CommitmentState::Abandoned,
                claim: None,
                ..old(self)@
            }),
            r is Err ==> final(self)@ == old(self)@,
            old(self)@.claim_consistent() ==> final(self)@.claim_consistent(),
            old(self)@.epoch_step_to(final(self)@),
    {
        self.transition_to(CommitmentState::Abandoned)?;
        self.claim = None;
        Ok(())
    }

    fn require_current_claim(&self, worker_id: &WorkerId, epoch: ClaimEpoch) -> (r: Result<
        (),
        DomainError,
    >)
        ensures
            match self@.claim_error(*worker_id, epoch) {
                Some(e) => r == Err::<(), DomainError>(e),
                None => r is Ok,
            },
    {
        let claim = match &self.claim {
            Some(c) => c,
            None => return Err(DomainError::NotClaimed),
        };
        if !claim.worker_id().same_as(worker_id) {
            return Err(
                DomainError::ClaimOwnerMismatch {
                    expected: claim.worker_id().clone(),
                    actual: worker_id.clone(),
                },
            );
        }
        if claim.epoch() != epoch {
            return Err(DomainError::StaleEpoch { expected: claim.epoch(), actual: epoch });
        }
        Ok(())
    }

    fn transition_to(&mut self, next: CommitmentState) -> (r: Result<(), DomainError>)
        ensures
            r == old(self)@.step(next),
            r is Ok ==> final(self)@ == (CommitmentView { state: next, ..old(self)@ }),
            r is Err ==> final(self)@ == old(self)@,
    {
        validate_transition(&self.state, &next)?;
        self.state = next;
        Ok(())
    }
}

/// The state a resume request moves to.
pub open spec fn resume_state(target: ResumeTarget) -> CommitmentState {
    match target {
        ResumeTarget::Ready => CommitmentState::Ready,
        ResumeTarget::Working => CommitmentState::Working,
    }
}

#[derive(Clone, Copy, Debug, PartialEq, Eq, Structural)]
pub enum AttentionState {
    Open,
    Cleared,
}

/// The observable content of an attention item.
pub struct AttentionItemView {
    pub attention_id: AttentionId,
    pub commitment_id: Option<CommitmentId>,
    pub description: Seq<char>,
    pub state: AttentionState,
}

/// An asynchronous operational escalation.
#[derive(Clone, Debug, PartialEq, Eq)]
pub struct AttentionItem {
    attention_id: AttentionId,
    commitment_id: Option<CommitmentId>,
    description: String,
    state: AttentionState,
}

impl View for AttentionItem {
    type V = AttentionItemView;

    closed spec fn view(&self) -> AttentionItemView {
        AttentionItemView {
            attention_id: self.attention_id,
            commitment_id: self.commitment_id,
            description: self.description@,
            state: self.state,
        }
    }
}

impl AttentionItem {
    /// A new open attention item.
    pub fn new(attention_id: AttentionId, commitment_id: Option<CommitmentId>, description: &str) -> (r:
        Result<Self, DomainError>)
        ensures
            match r {
                Ok(a) => !is_blank(description@) && a@ == (AttentionItemView {
                    attention_id,
                    commitment_id,
                    description: description@,
                    state: AttentionState::Open,
                }),
                Err(e) => is_blank(description@) && e == DomainError::EmptyDescription,
            },
    {
        Ok(AttentionItem {
            attention_id,
            commitment_id,
            description: nonempty_description(description)?,
            state: AttentionState::Open,
        })
    }

    pub fn attention_id(&self) -> (r: &AttentionId)
        ensures
            *r == self@.attention_id,
    {
        &self.attention_id
    }

    pub fn commitment_id(&self) -> (r: Option<&CommitmentId>)
        ensures
            match r {
                Some(c) => self@.commitment_id == Some(*c),
                None => self@.commitment_id is None,
            },
    {
        match &self.commitment_id {
            Some(c) => Some(c),
            None => None,
        }
    }

    pub fn description(&self) -> (r: &str)
        ensures
            r@ == self@.description,
    {
        self.description.as_str()
    }

    pub fn state(&self) -> (r: AttentionState)
        ensures
            r == self@.state,
    {
        self.state
    }
}

/// The authoritative outcome Tethers reports for an admitted action.
#[derive(Debug, PartialEq, Eq)]
pub enum TethersOutcome {
    Succeeded { action_ref: TethersActionRef },
    Failed { action_ref: TethersActionRef },
    Uncertain { action_ref: TethersActionRef },
}

impl Clone for TethersOutcome {
    fn clone(&self) -> (r: Self)
        ensures
            r == *self,
    {
        match self {
            TethersOutcome::Succeeded { action_ref } => TethersOutcome::Succeeded {
                action_ref: action_ref.clone(),
            },
            TethersOutcome::Failed { action_ref } => TethersOutcome::Failed {
                action_ref: action_ref.clone(),
            },
            TethersOutcome::Uncertain { action_ref } => TethersOutcome::Uncertain {
                action_ref: action_ref.clone(),
            },
        }
    }
}

/// An outcome with its action reference taken by its text.
pub enum TethersOutcomeView {
    Succeeded(Seq<char>),
    Failed(Seq<char>),
    Uncertain(Seq<char>),
}

impl View for TethersOutcome {
    type V = TethersOutcomeView;

    open spec fn view(&self) -> TethersOutcomeView {
        match *self {
            TethersOutcome::Succeeded { action_ref } => TethersOutcomeView::Succeeded(action_ref@),
            TethersOutcome::Failed { action_ref } => TethersOutcomeView::Failed(action_ref@),
            TethersOutcome::Uncertain { action_ref } => TethersOutcomeView::Uncertain(action_ref@),
        }
    }
}

impl TethersOutcome {
    pub open spec fn spec_action_ref(&self) -> TethersActionRef {
        match *self {
            TethersOutcome::Succeeded { action_ref } => action_ref,
            TethersOutcome::Failed { action_ref } => action_ref,
            TethersOutcome::Uncertain { action_ref } => action_ref,
        }
    }

    pub fn action_ref(&self) -> (r: &TethersActionRef)
        ensures
            *r == self.spec_action_ref(),
    {
        match self {
            TethersOutcome::Succeeded { action_ref }
            | TethersOutcome::Failed { action_ref }
            | TethersOutcome::Uncertain { action_ref } => action_ref,
        }
    }

    pub fn is_uncertain(&self) -> (r: bool)
        ensures
            r == (*self is Uncertain),
    {
        matches!(self, TethersOutcome::Uncertain { .. })
    }
}

/// Typed evidence of a structural change.
#[derive(Clone, Debug, PartialEq, Eq)]
pub enum StructuralChange {
    Decomposed { children: Vec<CommitmentId>, replacement_terminal_id: CommitmentId },
}

/// Closed event vocabulary for accepted Resolve mutations.
#[derive(Clone, Debug, PartialEq, Eq)]
pub enum WorkEvent {
    GoalCreated { goal_id: GoalId, revision: GoalRevision },
    GoalRevised { goal_id: GoalId, revision: GoalRevision },
    CommitmentCreated { commitment_id: CommitmentId, goal_id: GoalId },
    CommitmentActivated { commitment_id: CommitmentId },
    CommitmentClaimed { commitment_id: CommitmentId, worker_id: WorkerId, epoch: ClaimEpoch },
    CommitmentStarted { commitment_id: CommitmentId },
    CommitmentWaiting { commitment_id: CommitmentId, reason: WaitingReason },
    CommitmentRecoveryPending { commitment_id: CommitmentId },
    CommitmentCompletionProposed { commitment_id: CommitmentId },
    CommitmentCompleted { commitment_id: CommitmentId },
    CommitmentCancelled { commitment_id: CommitmentId },
    CommitmentAbandoned { commitment_id: CommitmentId },
    HeartbeatAccepted { commitment_id: CommitmentId, worker_id: WorkerId, epoch: ClaimEpoch },
    LeaseExpired { commitment_id: CommitmentId, worker_id: WorkerId, epoch: ClaimEpoch },
    GuardIssued { guard_id: GuardId, commitment_id: CommitmentId, claim_epoch: ClaimEpoch },
    GuardAdmitted { guard_id: GuardId, commitment_id: CommitmentId, action_ref: TethersActionRef },
    GuardInvalidated { guard_id: GuardId },
    GuardReservationExpired { guard_id: GuardId },
    TethersOutcomeRecorded { outcome: TethersOutcome },
    RecoveryCompleted { commitment_id: CommitmentId, action_ref: TethersActionRef },
    RecoveryReleased { commitment_id: CommitmentId },
    StructuralProposalApplied { target: CommitmentId },
    AttentionRaised { attention_id: AttentionId, commitment_id: Option<CommitmentId> },
    AttentionCleared { attention_id: AttentionId },
}

/// The description as owned text, unless it is blank.
pub fn nonempty_description(description: &str) -> (r: Result<String, DomainError>)
    ensures
        match r {
            Ok(s) => !is_blank(description@) && s@ == description@,
            Err(e) => is_blank(description@) && e == DomainError::EmptyDescription,
        },
{
    if str_is_blank(description) {
        Err(DomainError::EmptyDescription)
    } else {
        Ok(description.to_owned())
    }
}

} // verus!
