//! How domain values are written to the store's columns and read back from them.
use crate::domain::{
    AttentionState, CommitmentState, CommitmentStateView, GoalState, Prerequisite,
    PrerequisiteView, TethersOutcome, TethersOutcomeView, WaitingReason, WaitingReasonView,
};
use crate::guards::{GuardState, GuardStateView};
use crate::ids::{
    CommitmentId, HumanDecisionRef, TethersActionRef, TethersContractRef, TextId,
};
use crate::store_error::{debug_str, quoted, StoreError};
use crate::text::{decimal_i64, is_blank, join_text, signed_decimal, text_eq};
use vstd::prelude::*;

verus! {

/// `value` as an SQLite INTEGER, when it fits.
pub fn checked_i64(value: u64, field: &str) -> (r: Result<i64, StoreError>)
    ensures
        match r {
            Ok(v) => value <= i64::MAX && v as int == value as int,
            Err(e) => {
                &&& value > i64::MAX
                &&& e matches StoreError::InvalidMutation(m) && m@ == field@
                    + " does not fit in SQLite INTEGER"@
            },
        },
{
    if value <= i64::MAX as u64 {
        Ok(value as i64)
    } else {
        Err(StoreError::InvalidMutation(join_text(field, " does not fit in SQLite INTEGER")))
    }
}

/// A stored INTEGER that must be positive.
pub fn positive_u64(value: i64, field: &str) -> (r: Result<u64, StoreError>)
    ensures
        match r {
            Ok(v) => value > 0 && v as int == value as int,
            Err(e) => {
                &&& value <= 0
                &&& e matches StoreError::InvalidPersistedData(m) && m@ == field@
                    + " must be positive, received "@ + signed_decimal(value as int)
            },
        },
{
    if value > 0 {
        Ok(value as u64)
    } else {
        let head = join_text(field, " must be positive, received ");
        let number = decimal_i64(value);
        Err(StoreError::InvalidPersistedData(join_text(head.as_str(), number.as_str())))
    }
}

/// A stored INTEGER that must not be negative.
pub fn nonnegative_u64(value: i64, field: &str) -> (r: Result<u64, StoreError>)
    ensures
        match r {
            Ok(v) => value >= 0 && v as int == value as int,
            Err(e) => {
                &&& value < 0
                &&& e matches StoreError::InvalidPersistedData(m) && m@ == field@
                    + " must not be negative, received "@ + signed_decimal(value as int)
            },
        },
{
    if value >= 0 {
        Ok(value as u64)
    } else {
        let head = join_text(field, " must not be negative, received ");
        let number = decimal_i64(value);
        Err(StoreError::InvalidPersistedData(join_text(head.as_str(), number.as_str())))
    }
}

/// The message that reports a stored identifier of the given kind as malformed.
pub open spec fn invalid_id_message(kind: Seq<char>, value: Seq<char>) -> Seq<char> {
    "invalid "@ + kind + " identifier "@ + quoted(value)
}

/// Rebuilds an identifier read back from the store; blank text is malformed data.
pub fn parse_id<T: TextId>(value: String, kind: &str) -> (r: Result<T, StoreError>)
    ensures
        match r {
            Ok(id) => !is_blank(value@) && id@ == value@,
            Err(e) => {
                &&& is_blank(value@)
                &&& e matches StoreError::InvalidPersistedData(m) && m@ == invalid_id_message(
                    kind@,
                    value@,
                )
            },
        },
{
    match T::from_text(value.as_str()) {
        Ok(id) => Ok(id),
        Err(_) => {
            let head = join_text("invalid ", kind);
            let head = join_text(head.as_str(), " identifier ");
            let shown = debug_str(value.as_str());
            let message = join_text(head.as_str(), shown.as_str());
            assert(message@ =~= invalid_id_message(kind@, value@));
            Err(StoreError::InvalidPersistedData(message))
        },
    }
}

/// The text under which a goal state is stored.
pub open spec fn goal_state_text(state: GoalState) -> Seq<char> {
    match state {
        GoalState::Active => "active"@,
        GoalState::Completed => "completed"@,
        GoalState::Cancelled => "cancelled"@,
        GoalState::Abandoned => "abandoned"@,
    }
}

/// The text under which `state` is stored.
pub fn encode_goal_state(state: &GoalState) -> (r: &'static str)
    ensures
        r@ == goal_state_text(*state),
{
    match state {
        GoalState::Active => "active",
        GoalState::Completed => "completed",
        GoalState::Cancelled => "cancelled",
        GoalState::Abandoned => "abandoned",
    }
}

/// The goal state stored under `value`; any other text is malformed data.
pub fn decode_goal_state(value: &str) -> (r: Result<GoalState, StoreError>)
    ensures
        match r {
            Ok(state) => goal_state_text(state) == value@,
            Err(e) => {
                &&& forall|state: GoalState| goal_state_text(state) != value@
                &&& e matches StoreError::InvalidPersistedData(m) && m@ == "unknown goal state "@
                    + quoted(value@)
            },
        },
{
    if text_eq(value, "active") {
        Ok(GoalState::Active)
    } else if text_eq(value, "completed") {
        Ok(GoalState::Completed)
    } else if text_eq(value, "cancelled") {
        Ok(GoalState::Cancelled)
    } else if text_eq(value, "abandoned") {
        Ok(GoalState::Abandoned)
    } else {
        assert forall|state: GoalState| goal_state_text(state) != value@ by {
            match state {
                GoalState::Active => {},
                GoalState::Completed => {},
                GoalState::Cancelled => {},
                GoalState::Abandoned => {},
            }
        }
        let shown = debug_str(value);
        Err(StoreError::InvalidPersistedData(join_text("unknown goal state ", shown.as_str())))
    }
}

/// Distinct goal states are stored under distinct texts, so decoding what
/// `encode_goal_state` wrote gives back the state it was written from.
pub proof fn lemma_goal_state_text_round_trips(a: GoalState, b: GoalState)
    requires
        goal_state_text(a) == goal_state_text(b),
    ensures
        a == b,
{
    reveal_strlit("active");
    reveal_strlit("completed");
    reveal_strlit("cancelled");
    reveal_strlit("abandoned");
    if a != b {
        let ta = goal_state_text(a);
        let tb = goal_state_text(b);
        assert(ta.len() != tb.len() || ta[0] != tb[0] || ta[1] != tb[1]);
    }
}

/// The text under which an attention state is stored.
pub open spec fn attention_state_text(state: AttentionState) -> Seq<char> {
    match state {
        AttentionState::Open => "open"@,
        AttentionState::Cleared => "cleared"@,
    }
}

/// The text under which `state` is stored.
pub fn encode_attention_state(state: AttentionState) -> (r: &'static str)
    ensures
        r@ == attention_state_text(state),
{
    match state {
        AttentionState::Open => "open",
        AttentionState::Cleared => "cleared",
    }
}

/// The attention state stored under `value`; any other text is malformed data.
pub fn decode_attention_state(value: &str) -> (r: Result<AttentionState, StoreError>)
    ensures
        match r {
            Ok(state) => attention_state_text(state) == value@,
            Err(e) => {
                &&& forall|state: AttentionState| attention_state_text(state) != value@
                &&& e matches StoreError::InvalidPersistedData(m) && m@
                    == "unknown attention state "@ + quoted(value@)
            },
        },
{
    if text_eq(value, "open") {
        Ok(AttentionState::Open)
    } else if text_eq(value, "cleared") {
        Ok(AttentionState::Cleared)
    } else {
        assert forall|state: AttentionState| attention_state_text(state) != value@ by {
            match state {
                AttentionState::Open => {},
                AttentionState::Cleared => {},
            }
        }
        let shown = debug_str(value);
        Err(
            StoreError::InvalidPersistedData(join_text("unknown attention state ", shown.as_str())),
        )
    }
}

/// Distinct attention states are stored under distinct texts.
pub proof fn lemma_attention_state_text_round_trips(a: AttentionState, b: AttentionState)
    requires
        attention_state_text(a) == attention_state_text(b),
    ensures
        a == b,
{
    reveal_strlit("open");
    reveal_strlit("cleared");
    assert("open"@[0] != "cleared"@[0]);
}

/// A waiting reason in its serialised form: each reference as plain text.
pub enum StoredWaitingReason {
    Prerequisite(String),
    Authority(String),
    HumanDecision(String),
    Verification(String),
    UncertainAction(String),
    External(String),
}

impl View for StoredWaitingReason {
    type V = WaitingReasonView;

    open spec fn view(&self) -> WaitingReasonView {
        match *self {
            StoredWaitingReason::Prerequisite(t) => WaitingReasonView::Prerequisite(t@),
            StoredWaitingReason::Authority(t) => WaitingReasonView::Authority(t@),
            StoredWaitingReason::HumanDecision(t) => WaitingReasonView::HumanDecision(t@),
            StoredWaitingReason::Verification(t) => WaitingReasonView::Verification(t@),
            StoredWaitingReason::UncertainAction(t) => WaitingReasonView::UncertainAction(t@),
            StoredWaitingReason::External(t) => WaitingReasonView::External(t@),
        }
    }
}

/// The identifier kind that a waiting reason's reference is read back as;
/// external reasons carry free text and are never rejected.
pub open spec fn reason_reference_kind(v: WaitingReasonView) -> Seq<char> {
    match v {
        WaitingReasonView::Prerequisite(_) => "commitment"@,
        WaitingReasonView::Authority(_) => "Tethers action"@,
        WaitingReasonView::HumanDecision(_) => "human decision"@,
        WaitingReasonView::Verification(_) => "Tethers contract"@,
        WaitingReasonView::UncertainAction(_) => "Tethers action"@,
        WaitingReasonView::External(_) => Seq::empty(),
    }
}

/// The text that a waiting reason carries.
pub open spec fn reason_text(v: WaitingReasonView) -> Seq<char> {
    match v {
        WaitingReasonView::Prerequisite(t) => t,
        WaitingReasonView::Authority(t) => t,
        WaitingReasonView::HumanDecision(t) => t,
        WaitingReasonView::Verification(t) => t,
        WaitingReasonView::UncertainAction(t) => t,
        WaitingReasonView::External(t) => t,
    }
}

/// A serialised waiting reason can be restored unless it names a typed
/// reference by blank text.
pub open spec fn reason_restorable(v: WaitingReasonView) -> bool {
    v is External || !is_blank(reason_text(v))
}

impl StoredWaitingReason {
    /// The serialised form of `reason`; it can always be restored.
    pub fn from_reason(reason: &WaitingReason) -> (r: Self)
        ensures
            r@ == reason@,
            reason_restorable(r@),
    {
        match reason {
            WaitingReason::Prerequisite(id) => StoredWaitingReason::Prerequisite(
                id.as_str().to_owned(),
            ),
            WaitingReason::Authority(id) => StoredWaitingReason::Authority(id.as_str().to_owned()),
            WaitingReason::HumanDecision(id) => StoredWaitingReason::HumanDecision(
                id.as_str().to_owned(),
            ),
            WaitingReason::Verification(id) => StoredWaitingReason::Verification(
                id.as_str().to_owned(),
            ),
            WaitingReason::UncertainAction(id) => StoredWaitingReason::UncertainAction(
                id.as_str().to_owned(),
            ),
            WaitingReason::External(text) => StoredWaitingReason::External(text.clone()),
        }
    }

    /// The waiting reason this form describes, with each reference validated.
    pub fn into_domain(self) -> (r: Result<WaitingReason, StoreError>)
        ensures
            r is Ok <==> reason_restorable(self@),
            match r {
                Ok(reason) => reason@ == self@,
                Err(e) => e matches StoreError::InvalidPersistedData(m) && m@ == invalid_id_message(
                    reason_reference_kind(self@),
                    reason_text(self@),
                ),
            },
    {
        match self {
            StoredWaitingReason::Prerequisite(value) => {
                match parse_id::<CommitmentId>(value, "commitment") {
                    Ok(id) => Ok(WaitingReason::Prerequisite(id)),
                    Err(e) => Err(e),
                }
            },
            StoredWaitingReason::Authority(value) => {
                match parse_id::<TethersActionRef>(value, "Tethers action") {
                    Ok(id) => Ok(WaitingReason::Authority(id)),
                    Err(e) => Err(e),
                }
            },
            StoredWaitingReason::HumanDecision(value) => {
                match parse_id::<HumanDecisionRef>(value, "human decision") {
                    Ok(id) => Ok(WaitingReason::HumanDecision(id)),
                    Err(e) => Err(e),
                }
            },
            StoredWaitingReason::Verification(value) => {
                match parse_id::<TethersContractRef>(value, "Tethers contract") {
                    Ok(id) => Ok(WaitingReason::Verification(id)),
                    Err(e) => Err(e),
                }
            },
            StoredWaitingReason::UncertainAction(value) => {
                match parse_id::<TethersActionRef>(value, "Tethers action") {
                    Ok(id) => Ok(WaitingReason::UncertainAction(id)),
                    Err(e) => Err(e),
                }
            },
            StoredWaitingReason::External(value) => Ok(WaitingReason::External(value)),
        }
    }
}

/// A commitment state in its serialised form.
pub enum StoredCommitmentState {
    Proposed,
    Ready,
    Claimed,
    Working,
    Waiting(StoredWaitingReason),
    RecoveryPending,
    CompletionProposed,
    Completed,
    Cancelled,
    Abandoned,
}

impl View for StoredCommitmentState {
    type V = CommitmentStateView;

    open spec fn view(&self) -> CommitmentStateView {
        match *self {
            StoredCommitmentState::Proposed => CommitmentStateView::Proposed,
            StoredCommitmentState::Ready => CommitmentStateView::Ready,
            StoredCommitmentState::Claimed => CommitmentStateView::Claimed,
            StoredCommitmentState::Working => CommitmentStateView::Working,
            StoredCommitmentState::Waiting(reason) => CommitmentStateView::Waiting(reason@),
            StoredCommitmentState::RecoveryPending => CommitmentStateView::RecoveryPending,
            StoredCommitmentState::CompletionProposed => CommitmentStateView::CompletionProposed,
            StoredCommitmentState::Completed => CommitmentStateView::Completed,
            StoredCommitmentState::Cancelled => CommitmentStateView::Cancelled,
            StoredCommitmentState::Abandoned => CommitmentStateView::Abandoned,
        }
    }
}

/// A serialised commitment state can be restored unless its waiting reason cannot.
pub open spec fn state_restorable(v: CommitmentStateView) -> bool {
    v matches CommitmentStateView::Waiting(reason) ==> reason_restorable(reason)
}

impl StoredCommitmentState {
    /// The serialised form of `state`. It can always be restored, and `into_domain`
    /// then gives back a state with the same view: reading back what was written
    /// returns what was written.
    pub fn from_state(state: &CommitmentState) -> (r: Self)
        ensures
            r@ == state@,
            state_restorable(r@),
    {
        match state {
            CommitmentState::Proposed => StoredCommitmentState::Proposed,
            CommitmentState::Ready => StoredCommitmentState::Ready,
            CommitmentState::Claimed => StoredCommitmentState::Claimed,
            CommitmentState::Working => StoredCommitmentState::Working,
            CommitmentState::Waiting(reason) => StoredCommitmentState::Waiting(
                StoredWaitingReason::from_reason(reason),
            ),
            CommitmentState::RecoveryPending => StoredCommitmentState::RecoveryPending,
            CommitmentState::CompletionProposed => StoredCommitmentState::CompletionProposed,
            CommitmentState::Completed => StoredCommitmentState::Completed,
            CommitmentState::Cancelled => StoredCommitmentState::Cancelled,
            CommitmentState::Abandoned => StoredCommitmentState::Abandoned,
        }
    }

    /// The commitment state this form describes, with its references validated.
    pub fn into_domain(self) -> (r: Result<CommitmentState, StoreError>)
        ensures
            r is Ok <==> state_restorable(self@),
            match r {
                Ok(state) => state@ == self@,
                Err(e) => self@ matches CommitmentStateView::Waiting(reason) && e matches StoreError::InvalidPersistedData(m)
                    && m@ == invalid_id_message(reason_reference_kind(reason), reason_text(reason)),
            },
    {
        match self {
            StoredCommitmentState::Proposed => Ok(CommitmentState::Proposed),
            StoredCommitmentState::Ready => Ok(CommitmentState::Ready),
            StoredCommitmentState::Claimed => Ok(CommitmentState::Claimed),
            StoredCommitmentState::Working => Ok(CommitmentState::Working),
            StoredCommitmentState::Waiting(reason) => match reason.into_domain() {
                Ok(reason) => Ok(CommitmentState::Waiting(reason)),
                Err(e) => Err(e),
            },
            StoredCommitmentState::RecoveryPending => Ok(CommitmentState::RecoveryPending),
            StoredCommitmentState::CompletionProposed => Ok(CommitmentState::CompletionProposed),
            StoredCommitmentState::Completed => Ok(CommitmentState::Completed),
            StoredCommitmentState::Cancelled => Ok(CommitmentState::Cancelled),
            StoredCommitmentState::Abandoned => Ok(CommitmentState::Abandoned),
        }
    }
}

/// An outcome in its serialised form.
pub enum StoredTethersOutcome {
    Succeeded(String),
    Failed(String),
    Uncertain(String),
}

impl View for StoredTethersOutcome {
    type V = TethersOutcomeView;

    open spec fn view(&self) -> TethersOutcomeView {
        match *self {
            StoredTethersOutcome::Succeeded(t) => TethersOutcomeView::Succeeded(t@),
            StoredTethersOutcome::Failed(t) => TethersOutcomeView::Failed(t@),
            StoredTethersOutcome::Uncertain(t) => TethersOutcomeView::Uncertain(t@),
        }
    }
}

/// The action text that an outcome names.
pub open spec fn outcome_text(v: TethersOutcomeView) -> Seq<char> {
    match v {
        TethersOutcomeView::Succeeded(t) => t,
        TethersOutcomeView::Failed(t) => t,
        TethersOutcomeView::Uncertain(t) => t,
    }
}

impl StoredTethersOutcome {
    /// The serialised form of `outcome`; it can always be restored.
    pub fn from_outcome(outcome: &TethersOutcome) -> (r: Self)
        ensures
            r@ == outcome@,
            !is_blank(outcome_text(r@)),
    {
        match outcome {
            TethersOutcome::Succeeded { action_ref } => StoredTethersOutcome::Succeeded(
                action_ref.as_str().to_owned(),
            ),
            TethersOutcome::Failed { action_ref } => StoredTethersOutcome::Failed(
                action_ref.as_str().to_owned(),
            ),
            TethersOutcome::Uncertain { action_ref } => StoredTethersOutcome::Uncertain(
                action_ref.as_str().to_owned(),
            ),
        }
    }

    /// The outcome this form describes, with its action reference validated.
    pub fn into_domain(self) -> (r: Result<TethersOutcome, StoreError>)
        ensures
            r is Ok <==> !is_blank(outcome_text(self@)),
            match r {
                Ok(outcome) => outcome@ == self@,
                Err(e) => e matches StoreError::InvalidPersistedData(m) && m@ == invalid_id_message(
                    "Tethers action"@,
                    outcome_text(self@),
                ),
            },
    {
        match self {
            StoredTethersOutcome::Succeeded(value) => {
                match parse_id::<TethersActionRef>(value, "Tethers action") {
                    Ok(action_ref) => Ok(TethersOutcome::Succeeded { action_ref }),
                    Err(e) => Err(e),
                }
            },
            StoredTethersOutcome::Failed(value) => {
                match parse_id::<TethersActionRef>(value, "Tethers action") {
                    Ok(action_ref) => Ok(TethersOutcome::Failed { action_ref }),
                    Err(e) => Err(e),
                }
            },
            StoredTethersOutcome::Uncertain(value) => {
                match parse_id::<TethersActionRef>(value, "Tethers action") {
                    Ok(action_ref) => Ok(TethersOutcome::Uncertain { action_ref }),
                    Err(e) => Err(e),
                }
            },
        }
    }
}

/// The view of an optional stored text.
pub open spec fn text_option(value: Option<String>) -> Option<Seq<char>> {
    match value {
        Some(text) => Some(text@),
        None => None,
    }
}

/// The `prerequisite_type` column of each kind of prerequisite.
pub open spec fn prerequisite_kind_text(p: PrerequisiteView) -> Seq<char> {
    match p {
        PrerequisiteView::Commitment(_) => "commitment"@,
        PrerequisiteView::TethersVerification(_) => "tethers_verification"@,
        PrerequisiteView::HumanDecision(_) => "human_decision"@,
    }
}

/// The reference text of a prerequisite.
pub open spec fn prerequisite_reference(p: PrerequisiteView) -> Seq<char> {
    match p {
        PrerequisiteView::Commitment(t) => t,
        PrerequisiteView::TethersVerification(t) => t,
        PrerequisiteView::HumanDecision(t) => t,
    }
}

/// The typed commitment link stored beside a prerequisite: the reference again,
/// for commitment prerequisites only.
pub open spec fn prerequisite_link(p: PrerequisiteView) -> Option<Seq<char>> {
    match p {
        PrerequisiteView::Commitment(t) => Some(t),
        _ => None,
    }
}

/// The `(prerequisite_type, reference_id, prerequisite_commitment_id)` columns that
/// store `prerequisite`.
pub fn prerequisite_columns(prerequisite: &Prerequisite) -> (r: (&'static str, String, Option<String>))
    ensures
        r.0@ == prerequisite_kind_text(prerequisite@),
        r.1@ == prerequisite_reference(prerequisite@),
        text_option(r.2) == prerequisite_link(prerequisite@),
        !is_blank(r.1@),
{
    match prerequisite {
        Prerequisite::Commitment(id) => (
            "commitment",
            id.as_str().to_owned(),
            Some(id.as_str().to_owned()),
        ),
        Prerequisite::TethersVerification(reference) => (
            "tethers_verification",
            reference.as_str().to_owned(),
            None,
        ),
        Prerequisite::HumanDecision(reference) => (
            "human_decision",
            reference.as_str().to_owned(),
            None,
        ),
    }
}

/// What a stored prerequisite row decodes to: the prerequisite, or the message
/// that reports the row as malformed.
pub open spec fn prerequisite_decoding(
    kind: Seq<char>,
    reference: Seq<char>,
    link: Option<Seq<char>>,
) -> Result<PrerequisiteView, Seq<char>> {
    if kind == "commitment"@ {
        match link {
            None => Err("commitment prerequisite is missing its typed reference"@),
            Some(l) => if l != reference {
                Err("commitment prerequisite references disagree"@)
            } else if is_blank(reference) {
                Err(invalid_id_message("commitment"@, reference))
            } else {
                Ok(PrerequisiteView::Commitment(reference))
            },
        }
    } else if kind == "tethers_verification"@ {
        if is_blank(reference) {
            Err(invalid_id_message("Tethers contract"@, reference))
        } else {
            Ok(PrerequisiteView::TethersVerification(reference))
        }
    } else if kind == "human_decision"@ {
        if is_blank(reference) {
            Err(invalid_id_message("human decision"@, reference))
        } else {
            Ok(PrerequisiteView::HumanDecision(reference))
        }
    } else {
        Err("unknown prerequisite type "@ + quoted(kind))
    }
}

/// Rebuilds a prerequisite from its stored columns.
pub fn decode_prerequisite(
    kind: String,
    reference_id: String,
    prerequisite_commitment_id: Option<String>,
) -> (r: Result<Prerequisite, StoreError>)
    ensures
        match prerequisite_decoding(kind@, reference_id@, text_option(prerequisite_commitment_id)) {
            Ok(v) => r matches Ok(p) && p@ == v,
            Err(m) => r matches Err(StoreError::InvalidPersistedData(text)) && text@ == m,
        },
{
    if text_eq(kind.as_str(), "commitment") {
        let stored_id = match prerequisite_commitment_id {
            Some(id) => id,
            None => {
                return Err(
                    StoreError::InvalidPersistedData(
                        "commitment prerequisite is missing its typed reference".to_owned(),
                    ),
                );
            },
        };
        if !(stored_id == reference_id) {
            return Err(
                StoreError::InvalidPersistedData(
                    "commitment prerequisite references disagree".to_owned(),
                ),
            );
        }
        match parse_id::<CommitmentId>(reference_id, "commitment") {
            Ok(id) => Ok(Prerequisite::Commitment(id)),
            Err(e) => Err(e),
        }
    } else if text_eq(kind.as_str(), "tethers_verification") {
        match parse_id::<TethersContractRef>(reference_id, "Tethers contract") {
            Ok(id) => Ok(Prerequisite::TethersVerification(id)),
            Err(e) => Err(e),
        }
    } else if text_eq(kind.as_str(), "human_decision") {
        match parse_id::<HumanDecisionRef>(reference_id, "human decision") {
            Ok(id) => Ok(Prerequisite::HumanDecision(id)),
            Err(e) => Err(e),
        }
    } else {
        let shown = debug_str(kind.as_str());
        Err(StoreError::InvalidPersistedData(join_text("unknown prerequisite type ", shown.as_str())))
    }
}

/// Reading back the columns that `prerequisite_columns` writes gives back the
/// prerequisite they were written from.
pub proof fn lemma_prerequisite_columns_round_trip(prerequisite: PrerequisiteView)
    requires
        !is_blank(prerequisite_reference(prerequisite)),
    ensures
        prerequisite_decoding(
            prerequisite_kind_text(prerequisite),
            prerequisite_reference(prerequisite),
            prerequisite_link(prerequisite),
        ) == Ok::<PrerequisiteView, Seq<char>>(prerequisite),
{
    reveal_strlit("commitment");
    reveal_strlit("tethers_verification");
    reveal_strlit("human_decision");
    assert("commitment"@[0] != "tethers_verification"@[0]);
    assert("commitment"@[0] != "human_decision"@[0]);
    assert("tethers_verification"@[0] != "human_decision"@[0]);
}

/// The view of a stored outcome column after parsing: absent, unreadable, or an outcome.
pub open spec fn parsed_outcome_view(outcome: Option<Result<StoredTethersOutcome, StoreError>>) -> Option<
    Option<TethersOutcomeView>,
> {
    match outcome {
        None => None,
        Some(Err(_)) => Some(None),
        Some(Ok(stored)) => Some(Some(stored@)),
    }
}

/// What a stored guard lifecycle decodes to: the state; `Err(Some(m))` for rows
/// whose fields disagree with their state, reported with message `m`; or
/// `Err(None)` when the outcome of a resolved guard could not be parsed.
pub open spec fn guard_state_decoding(
    state: Seq<char>,
    action: Option<Seq<char>>,
    outcome: Option<Option<TethersOutcomeView>>,
    reserved: bool,
) -> Result<GuardStateView, Option<Seq<char>>> {
    if state == "issued"@ {
        if action is Some || outcome is Some || !reserved {
            Err(Some("issued guard has inconsistent lifecycle fields"@))
        } else {
            Ok(GuardStateView::Issued)
        }
    } else if state == "admitted"@ {
        match action {
            None => Err(Some("admitted guard is missing action_ref"@)),
            Some(a) => if outcome is Some || reserved {
                Err(Some("admitted guard has inconsistent lifecycle fields"@))
            } else if is_blank(a) {
                Err(Some(invalid_id_message("Tethers action"@, a)))
            } else {
                Ok(GuardStateView::Admitted(a))
            },
        }
    } else if state == "resolved"@ {
        match action {
            None => Err(Some("resolved guard is missing action_ref"@)),
            Some(a) => match outcome {
                None => Err(Some("resolved guard is missing outcome"@)),
                Some(parsed) => if reserved {
                    Err(Some("resolved guard has a reservation expiration"@))
                } else {
                    match parsed {
                        None => Err(None),
                        Some(o) => if is_blank(outcome_text(o)) {
                            Err(Some(invalid_id_message("Tethers action"@, outcome_text(o))))
                        } else if is_blank(a) {
                            Err(Some(invalid_id_message("Tethers action"@, a)))
                        } else if outcome_text(o) != a {
                            Err(Some("resolved guard action and outcome disagree"@))
                        } else {
                            Ok(GuardStateView::Resolved(a, o))
                        },
                    }
                },
            },
        }
    } else if state == "uncertain"@ {
        match action {
            None => Err(Some("uncertain guard is missing action_ref"@)),
            Some(a) => if outcome is Some || reserved {
                Err(Some("uncertain guard has inconsistent lifecycle fields"@))
            } else if is_blank(a) {
                Err(Some(invalid_id_message("Tethers action"@, a)))
            } else {
                Ok(GuardStateView::Uncertain(a))
            },
        }
    } else if state == "invalidated"@ {
        if action is Some || outcome is Some || reserved {
            Err(Some("invalidated guard has lifecycle fields"@))
        } else {
            Ok(GuardStateView::Invalidated)
        }
    } else {
        Err(Some("unknown guard state"@))
    }
}

fn invalid_guard_fields(message: &str) -> (r: StoreError)
    ensures
        r matches StoreError::InvalidPersistedData(m) && m@ == message@,
{
    StoreError::InvalidPersistedData(message.to_owned())
}

/// Rebuilds a guard's lifecycle state from its stored columns: the state name,
/// the admitted action, the parsed outcome of a resolved guard, and whether a
/// reservation expiry is present.
pub fn decode_guard_state(
    state: &str,
    action_ref: Option<String>,
    outcome: Option<Result<StoredTethersOutcome, StoreError>>,
    reservation_expires_at: Option<i64>,
) -> (r: Result<GuardState, StoreError>)
    ensures
        match guard_state_decoding(
            state@,
            text_option(action_ref),
            parsed_outcome_view(outcome),
            reservation_expires_at is Some,
        ) {
            Ok(v) => r matches Ok(g) && g@ == v,
            Err(Some(m)) => r matches Err(StoreError::InvalidPersistedData(text)) && text@ == m,
            Err(None) => outcome matches Some(Err(e)) && r == Err::<GuardState, StoreError>(e),
        },
{
    if text_eq(state, "issued") {
        if action_ref.is_some() || outcome.is_some() || reservation_expires_at.is_none() {
            return Err(invalid_guard_fields("issued guard has inconsistent lifecycle fields"));
        }
        Ok(GuardState::Issued)
    } else if text_eq(state, "admitted") {
        let action_ref = match action_ref {
            Some(a) => a,
            None => {
                return Err(invalid_guard_fields("admitted guard is missing action_ref"));
            },
        };
        if outcome.is_some() || reservation_expires_at.is_some() {
            return Err(invalid_guard_fields("admitted guard has inconsistent lifecycle fields"));
        }
        match parse_id::<TethersActionRef>(action_ref, "Tethers action") {
            Ok(action_ref) => Ok(GuardState::Admitted { action_ref }),
            Err(e) => Err(e),
        }
    } else if text_eq(state, "resolved") {
        let action_ref = match action_ref {
            Some(a) => a,
            None => {
                return Err(invalid_guard_fields("resolved guard is missing action_ref"));
            },
        };
        let parsed = match outcome {
            Some(parsed) => parsed,
            None => {
                return Err(invalid_guard_fields("resolved guard is missing outcome"));
            },
        };
        if reservation_expires_at.is_some() {
            return Err(invalid_guard_fields("resolved guard has a reservation expiration"));
        }
        let stored = match parsed {
            Ok(stored) => stored,
            Err(e) => {
                return Err(e);
            },
        };
        let outcome = match stored.into_domain() {
            Ok(outcome) => outcome,
            Err(e) => {
                return Err(e);
            },
        };
        let action_ref = match parse_id::<TethersActionRef>(action_ref, "Tethers action") {
            Ok(action_ref) => action_ref,
            Err(e) => {
                return Err(e);
            },
        };
        if !outcome.action_ref().same_as(&action_ref) {
            return Err(invalid_guard_fields("resolved guard action and outcome disagree"));
        }
        Ok(GuardState::Resolved { action_ref, outcome })
    } else if text_eq(state, "uncertain") {
        let action_ref = match action_ref {
            Some(a) => a,
            None => {
                return Err(invalid_guard_fields("uncertain guard is missing action_ref"));
            },
        };
        if outcome.is_some() || reservation_expires_at.is_some() {
            return Err(invalid_guard_fields("uncertain guard has inconsistent lifecycle fields"));
        }
        match parse_id::<TethersActionRef>(action_ref, "Tethers action") {
            Ok(action_ref) => Ok(GuardState::Uncertain { action_ref }),
            Err(e) => Err(e),
        }
    } else if text_eq(state, "invalidated") {
        if action_ref.is_some() || outcome.is_some() || reservation_expires_at.is_some() {
            return Err(invalid_guard_fields("invalidated guard has lifecycle fields"));
        }
        Ok(GuardState::Invalidated)
    } else {
        Err(invalid_guard_fields("unknown guard state"))
    }
}

} // verus!
