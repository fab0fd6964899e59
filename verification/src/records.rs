//! Read-only projections of stored rows, rebuilt and validated as they are loaded.
use crate::codec::{
    decode_attention_state, decode_goal_state, decode_guard_state, decode_prerequisite,
    guard_state_decoding, invalid_id_message, nonnegative_u64, parse_id, parsed_outcome_view,
    positive_u64, prerequisite_decoding, reason_reference_kind, reason_text, state_restorable,
    text_option, attention_state_text,
    goal_state_text, StoredCommitmentState, StoredTethersOutcome,
};
use crate::domain::{
    AttentionState, CommitmentState, CommitmentStateView, GoalState, Prerequisite,
    PrerequisiteView,
};
use crate::guards::{GuardState, GuardStateView, ScopeSet};
use crate::ids::{
    AcceptanceRef, AttentionId, CommitmentId, GoalId, GuardId, ScopeKey, TethersActionRef,
    WorkerId,
};
use crate::error::DomainError;
use crate::store_error::{quoted, StoreError};
use crate::text::{decimal_i64, is_blank, join_text, signed_decimal};
use crate::values::{BootGeneration, ClaimEpoch, MonotonicDuration, MonotonicInstant};
use vstd::prelude::*;

verus! {

/// `e` reports malformed stored data with message `m`.
pub open spec fn is_persisted_error(e: StoreError, m: Seq<char>) -> bool {
    e matches StoreError::InvalidPersistedData(text) && text@ == m
}

/// The observable content of a stored goal.
pub struct GoalRecordView {
    pub goal_id: Seq<char>,
    pub revision: u64,
    pub description: Seq<char>,
    pub state: GoalState,
    pub created_at: i64,
    pub state_version: i64,
}

/// The current projection of a goal.
#[derive(Clone, Debug, PartialEq, Eq)]
pub struct GoalRecord {
    goal_id: GoalId,
    revision: u64,
    description: String,
    state: GoalState,
    created_at: i64,
    state_version: i64,
}

impl View for GoalRecord {
    type V = GoalRecordView;

    closed spec fn view(&self) -> GoalRecordView {
        GoalRecordView {
            goal_id: self.goal_id@,
            revision: self.revision,
            description: self.description@,
            state: self.state,
            created_at: self.created_at,
            state_version: self.state_version,
        }
    }
}

impl GoalRecord {
    /// Rebuilds a goal from its stored row: the identifier must not be blank, the
    /// revision must be positive and the state must be a known one, checked in that order.
    pub fn from_row(
        stored_id: String,
        revision: i64,
        description: String,
        state: String,
        created_at: i64,
        state_version: i64,
    ) -> (r: Result<GoalRecord, StoreError>)
        ensures
            r is Ok <==> (!is_blank(stored_id@) && revision > 0 && exists|s: GoalState|
                goal_state_text(s) == state@),
            match r {
                Ok(record) => {
                    &&& record@.goal_id == stored_id@
                    &&& record@.revision as int == revision as int
                    &&& record@.description == description@
                    &&& goal_state_text(record@.state) == state@
                    &&& record@.created_at == created_at
                    &&& record@.state_version == state_version
                },
                Err(e) => if is_blank(stored_id@) {
                    is_persisted_error(e, invalid_id_message("goal"@, stored_id@))
                } else if revision <= 0 {
                    is_persisted_error(
                        e,
                        "goal revision"@ + " must be positive, received "@ + signed_decimal(
                            revision as int,
                        ),
                    )
                } else {
                    is_persisted_error(e, "unknown goal state "@ + quoted(state@))
                },
            },
    {
        let goal_id = match parse_id::<GoalId>(stored_id, "goal") {
            Ok(id) => id,
            Err(e) => {
                return Err(e);
            },
        };
        let revision = match positive_u64(revision, "goal revision") {
            Ok(v) => v,
            Err(e) => {
                return Err(e);
            },
        };
        let state = match decode_goal_state(state.as_str()) {
            Ok(s) => s,
            Err(e) => {
                return Err(e);
            },
        };
        Ok(GoalRecord { goal_id, revision, description, state, created_at, state_version })
    }

    pub fn goal_id(&self) -> (r: &GoalId)
        ensures
            r@ == self@.goal_id,
    {
        &self.goal_id
    }

    pub fn revision(&self) -> (r: u64)
        ensures
            r == self@.revision,
    {
        self.revision
    }

    pub fn description(&self) -> (r: &str)
        ensures
            r@ == self@.description,
    {
        self.description.as_str()
    }

    pub fn state(&self) -> (r: &GoalState)
        ensures
            *r == self@.state,
    {
        &self.state
    }

    pub fn created_at(&self) -> (r: i64)
        ensures
            r == self@.created_at,
    {
        self.created_at
    }

    pub fn state_version(&self) -> (r: i64)
        ensures
            r == self@.state_version,
    {
        self.state_version
    }
}

/// The observable content of a stored claim.
pub struct ClaimRecordView {
    pub worker_id: Seq<char>,
    pub epoch: u64,
    pub last_heartbeat: u64,
}

/// The raw persisted claim of a commitment; it is not a live lease after a restart.
#[derive(Clone, Debug, PartialEq, Eq)]
pub struct ClaimRecord {
    worker_id: WorkerId,
    epoch: u64,
    last_heartbeat: u64,
}

impl View for ClaimRecord {
    type V = ClaimRecordView;

    closed spec fn view(&self) -> ClaimRecordView {
        ClaimRecordView {
            worker_id: self.worker_id@,
            epoch: self.epoch,
            last_heartbeat: self.last_heartbeat,
        }
    }
}

/// A stored claim row `(worker_id, claim_epoch, last_heartbeat)` can be read back.
pub open spec fn claim_row_decodable(worker_id: Seq<char>, epoch: i64, heartbeat: i64) -> bool {
    !is_blank(worker_id) && epoch > 0 && heartbeat >= 0
}

/// `e` reports the first malformed column of a claim row that cannot be read back: the
/// worker, then the epoch, then the heartbeat.
pub open spec fn claim_row_error(worker_id: Seq<char>, epoch: i64, heartbeat: i64, e: StoreError) -> bool {
    if is_blank(worker_id) {
        is_persisted_error(e, invalid_id_message("worker"@, worker_id))
    } else if epoch <= 0 {
        is_persisted_error(
            e,
            "claim epoch"@ + " must be positive, received "@ + signed_decimal(epoch as int),
        )
    } else {
        is_persisted_error(
            e,
            "claim heartbeat"@ + " must not be negative, received "@ + signed_decimal(
                heartbeat as int,
            ),
        )
    }
}

impl ClaimRecord {
    /// Rebuilds a claim from its stored row.
    pub fn from_row(worker_id: String, epoch: i64, heartbeat: i64) -> (r: Result<
        ClaimRecord,
        StoreError,
    >)
        ensures
            r is Ok <==> claim_row_decodable(worker_id@, epoch, heartbeat),
            match r {
                Ok(claim) => claim@ == (ClaimRecordView {
                    worker_id: worker_id@,
                    epoch: epoch as u64,
                    last_heartbeat: heartbeat as u64,
                }),
                Err(e) => claim_row_error(worker_id@, epoch, heartbeat, e),
            },
    {
        let worker_id = match parse_id::<WorkerId>(worker_id, "worker") {
            Ok(id) => id,
            Err(e) => {
                return Err(e);
            },
        };
        let epoch = match positive_u64(epoch, "claim epoch") {
            Ok(v) => v,
            Err(e) => {
                return Err(e);
            },
        };
        let last_heartbeat = match nonnegative_u64(heartbeat, "claim heartbeat") {
            Ok(v) => v,
            Err(e) => {
                return Err(e);
            },
        };
        Ok(ClaimRecord { worker_id, epoch, last_heartbeat })
    }

    pub fn worker_id(&self) -> (r: &WorkerId)
        ensures
            r@ == self@.worker_id,
    {
        &self.worker_id
    }

    /// Raw persisted epoch value; it does not rehydrate a live claim.
    pub fn epoch(&self) -> (r: u64)
        ensures
            r == self@.epoch,
    {
        self.epoch
    }

    /// Raw persisted monotonic ticks; they are not valid lease time after restart.
    pub fn last_heartbeat(&self) -> (r: u64)
        ensures
            r == self@.last_heartbeat,
    {
        self.last_heartbeat
    }
}

/// A stored prerequisite row: `(prerequisite_type, reference_id, prerequisite_commitment_id)`.
pub open spec fn row_decoding(row: (String, String, Option<String>)) -> Result<
    PrerequisiteView,
    Seq<char>,
> {
    prerequisite_decoding(row.0@, row.1@, text_option(row.2))
}

/// Every stored prerequisite row can be read back.
pub open spec fn prerequisite_rows_decodable(rows: Seq<(String, String, Option<String>)>) -> bool {
    forall|i: int| 0 <= i < rows.len() ==> (#[trigger] row_decoding(rows[i])) is Ok
}

/// `e` reports the first stored prerequisite row that cannot be read back, with that
/// row's own message.
pub open spec fn prerequisite_rows_error(
    rows: Seq<(String, String, Option<String>)>,
    e: StoreError,
) -> bool {
    exists|i: int|
        #![trigger rows[i]]
        {
            &&& 0 <= i < rows.len()
            &&& forall|j: int| 0 <= j < i ==> (#[trigger] row_decoding(rows[j])) is Ok
            &&& row_decoding(rows[i]) matches Err(m) && is_persisted_error(e, m)
        }
}

/// No stored acceptance reference is blank.
pub open spec fn acceptance_values_valid(values: Seq<String>) -> bool {
    forall|i: int| 0 <= i < values.len() ==> !is_blank(#[trigger] values[i]@)
}

/// `e` reports the first blank stored acceptance reference.
pub open spec fn acceptance_values_error(values: Seq<String>, e: StoreError) -> bool {
    exists|i: int|
        #![trigger values[i]]
        {
            &&& 0 <= i < values.len()
            &&& forall|j: int| 0 <= j < i ==> !is_blank(#[trigger] values[j]@)
            &&& is_blank(values[i]@)
            &&& is_persisted_error(e, invalid_id_message("acceptance"@, values[i]@))
        }
}

/// Rebuilds the ordered prerequisites of a commitment; the first malformed row is reported.
pub fn decode_prerequisites(rows: &Vec<(String, String, Option<String>)>) -> (r: Result<
    Vec<Prerequisite>,
    StoreError,
>)
    ensures
        match r {
            Ok(list) => {
                &&& list@.len() == rows@.len()
                &&& forall|i: int|
                    0 <= i < rows@.len() ==> row_decoding(#[trigger] rows@[i]) == Ok::<
                        PrerequisiteView,
                        Seq<char>,
                    >(list@[i]@)
            },
            Err(e) => !prerequisite_rows_decodable(rows@) && prerequisite_rows_error(rows@, e),
        },
{
    let mut list: Vec<Prerequisite> = Vec::new();
    let mut i: usize = 0;
    while i < rows.len()
        invariant
            i <= rows.len(),
            list@.len() == i,
            forall|j: int|
                0 <= j < i ==> row_decoding(#[trigger] rows@[j]) == Ok::<
                    PrerequisiteView,
                    Seq<char>,
                >(list@[j]@),
        decreases rows.len() - i,
    {
        let row = &rows[i];
        let link = match &row.2 {
            Some(text) => Some(text.clone()),
            None => None,
        };
        assert(text_option(link) == text_option(rows@[i as int].2));
        match decode_prerequisite(row.0.clone(), row.1.clone(), link) {
            Ok(p) => {
                list.push(p);
            },
            Err(e) => {
                assert forall|j: int| 0 <= j < i implies (#[trigger] row_decoding(rows@[j])) is Ok by {
                }
                return Err(e);
            },
        }
        i = i + 1;
    }
    Ok(list)
}

/// Rebuilds the ordered acceptance references of a commitment.
pub fn parse_acceptance_refs(values: &Vec<String>) -> (r: Result<Vec<AcceptanceRef>, StoreError>)
    ensures
        match r {
            Ok(list) => {
                &&& list@.len() == values@.len()
                &&& forall|i: int| 0 <= i < values@.len() ==> (#[trigger] list@[i])@ == values@[i]@
                &&& forall|i: int| 0 <= i < values@.len() ==> !is_blank(#[trigger] values@[i]@)
            },
            Err(e) => !acceptance_values_valid(values@) && acceptance_values_error(values@, e),
        },
{
    let mut list: Vec<AcceptanceRef> = Vec::new();
    let mut i: usize = 0;
    while i < values.len()
        invariant
            i <= values.len(),
            list@.len() == i,
            forall|j: int| 0 <= j < i ==> (#[trigger] list@[j])@ == values@[j]@,
            forall|j: int| 0 <= j < i ==> !is_blank(#[trigger] values@[j]@),
        decreases values.len() - i,
    {
        match parse_id::<AcceptanceRef>(values[i].clone(), "acceptance") {
            Ok(reference) => {
                list.push(reference);
            },
            Err(e) => {
                return Err(e);
            },
        }
        i = i + 1;
    }
    Ok(list)
}

/// The view of an optional stored reference.
pub open spec fn id_option_text<T: View<V = Seq<char>>>(id: Option<T>) -> Option<Seq<char>> {
    match id {
        Some(id) => Some(id@),
        None => None,
    }
}

/// An optional stored reference can be read back when absent or not blank.
pub open spec fn optional_text_valid(text: Option<Seq<char>>) -> bool {
    text matches Some(t) ==> !is_blank(t)
}

/// The observable content of a stored commitment.
pub struct CommitmentRecordView {
    pub commitment_id: Seq<char>,
    pub goal_id: Seq<char>,
    pub parent_id: Option<Seq<char>>,
    pub description: Seq<char>,
    pub state: CommitmentStateView,
    pub prerequisites: Seq<PrerequisiteView>,
    pub acceptance_refs: Seq<Seq<char>>,
    pub claim: Option<ClaimRecordView>,
    pub outstanding_action: Option<Seq<char>>,
    pub state_version: i64,
}

/// The current projection of a commitment, with its raw persisted claim.
#[derive(Clone, Debug, PartialEq, Eq)]
pub struct CommitmentRecord {
    commitment_id: CommitmentId,
    goal_id: GoalId,
    parent_id: Option<CommitmentId>,
    description: String,
    state: CommitmentState,
    prerequisites: Vec<Prerequisite>,
    acceptance_refs: Vec<AcceptanceRef>,
    claim: Option<ClaimRecord>,
    outstanding_action: Option<TethersActionRef>,
    state_version: i64,
}

impl View for CommitmentRecord {
    type V = CommitmentRecordView;

    closed spec fn view(&self) -> CommitmentRecordView {
        CommitmentRecordView {
            commitment_id: self.commitment_id@,
            goal_id: self.goal_id@,
            parent_id: id_option_text(self.parent_id),
            description: self.description@,
            state: self.state@,
            prerequisites: self.prerequisites@.map_values(|p: Prerequisite| p@),
            acceptance_refs: self.acceptance_refs@.map_values(|a: AcceptanceRef| a@),
            claim: match self.claim {
                Some(c) => Some(c@),
                None => None,
            },
            outstanding_action: id_option_text(self.outstanding_action),
            state_version: self.state_version,
        }
    }
}

/// The stored columns of a commitment row and of the rows that belong to it.
pub struct CommitmentRow {
    pub commitment_id: String,
    pub goal_id: String,
    pub parent_id: Option<String>,
    pub description: String,
    /// The state column, parsed from its serialised form; `Err` carries the parser's message.
    pub state: Result<StoredCommitmentState, String>,
    pub outstanding_action: Option<String>,
    pub state_version: i64,
    /// The claim row: `(worker_id, claim_epoch, last_heartbeat)`.
    pub claim: Option<(String, i64, i64)>,
    pub prerequisites: Vec<(String, String, Option<String>)>,
    pub acceptance_refs: Vec<String>,
}

/// Every part of a commitment's stored rows can be read back.
pub open spec fn commitment_row_decodable(row: CommitmentRow) -> bool {
    &&& (row.claim matches Some(c) ==> claim_row_decodable(c.0@, c.1, c.2))
    &&& !is_blank(row.commitment_id@)
    &&& !is_blank(row.goal_id@)
    &&& optional_text_valid(text_option(row.parent_id))
    &&& (row.state matches Ok(s) && state_restorable(s@))
    &&& prerequisite_rows_decodable(row.prerequisites@)
    &&& acceptance_values_valid(row.acceptance_refs@)
    &&& optional_text_valid(text_option(row.outstanding_action))
}

/// `e` reports an optional stored reference of kind `kind` as blank.
pub open spec fn blank_reference_error(value: Option<String>, kind: Seq<char>, e: StoreError) -> bool {
    value matches Some(v) && is_persisted_error(e, invalid_id_message(kind, v@))
}

/// `e` reports a commitment state column that cannot be restored: the parser's message,
/// or the blank reference of a waiting reason.
pub open spec fn commitment_state_error(parsed: Result<StoredCommitmentState, String>, e: StoreError) -> bool {
    match parsed {
        Err(detail) => is_persisted_error(e, "invalid commitment state JSON: "@ + detail@),
        Ok(s) => s@ matches CommitmentStateView::Waiting(reason) && is_persisted_error(
            e,
            invalid_id_message(reason_reference_kind(reason), reason_text(reason)),
        ),
    }
}

/// `e` reports the first malformed part of a commitment's stored rows that cannot be read
/// back, in the order the parts are read: the claim, the commitment, goal and parent
/// identifiers, the state, the prerequisites, the acceptance references and the
/// outstanding action.
pub open spec fn commitment_row_error(row: CommitmentRow, e: StoreError) -> bool {
    if !(row.claim matches Some(c) ==> claim_row_decodable(c.0@, c.1, c.2)) {
        row.claim matches Some(c) && claim_row_error(c.0@, c.1, c.2, e)
    } else if is_blank(row.commitment_id@) {
        is_persisted_error(e, invalid_id_message("commitment"@, row.commitment_id@))
    } else if is_blank(row.goal_id@) {
        is_persisted_error(e, invalid_id_message("goal"@, row.goal_id@))
    } else if !optional_text_valid(text_option(row.parent_id)) {
        blank_reference_error(row.parent_id, "parent commitment"@, e)
    } else if !(row.state matches Ok(s) && state_restorable(s@)) {
        commitment_state_error(row.state, e)
    } else if !prerequisite_rows_decodable(row.prerequisites@) {
        prerequisite_rows_error(row.prerequisites@, e)
    } else if !acceptance_values_valid(row.acceptance_refs@) {
        acceptance_values_error(row.acceptance_refs@, e)
    } else {
        blank_reference_error(row.outstanding_action, "Tethers action"@, e)
    }
}

/// A commitment state read from its serialised form; a column the parser rejected is
/// malformed data.
pub fn decode_commitment_state(parsed: Result<StoredCommitmentState, String>) -> (r: Result<
    CommitmentState,
    StoreError,
>)
    ensures
        r is Ok <==> (parsed matches Ok(s) && state_restorable(s@)),
        match r {
            Ok(state) => parsed matches Ok(s) && state@ == s@,
            Err(e) => {
                &&& e is InvalidPersistedData
                &&& parsed matches Err(detail) ==> e matches StoreError::InvalidPersistedData(m)
                    && m@ == "invalid commitment state JSON: "@ + detail@
                &&& parsed matches Ok(s) ==> s@ matches CommitmentStateView::Waiting(reason)
                    && is_persisted_error(
                    e,
                    invalid_id_message(reason_reference_kind(reason), reason_text(reason)),
                )
            },
        },
{
    match parsed {
        Ok(stored) => stored.into_domain(),
        Err(detail) => Err(
            StoreError::InvalidPersistedData(
                join_text("invalid commitment state JSON: ", detail.as_str()),
            ),
        ),
    }
}

impl CommitmentRecord {
    /// Rebuilds a commitment from its stored rows. The claim is read first, then the
    /// identifiers, the state, the prerequisites, the acceptance references and the
    /// outstanding action; the first malformed part is reported.
    pub fn from_row(row: CommitmentRow) -> (r: Result<CommitmentRecord, StoreError>)
        ensures
            r is Ok <==> commitment_row_decodable(row),
            match r {
                Ok(record) => {
                    &&& record@.commitment_id == row.commitment_id@
                    &&& record@.goal_id == row.goal_id@
                    &&& record@.parent_id == text_option(row.parent_id)
                    &&& record@.description == row.description@
                    &&& (row.state matches Ok(s) && record@.state == s@)
                    &&& record@.prerequisites.len() == row.prerequisites@.len()
                    &&& (forall|i: int|
                        0 <= i < row.prerequisites@.len() ==> row_decoding(
                            #[trigger] row.prerequisites@[i],
                        ) == Ok::<PrerequisiteView, Seq<char>>(record@.prerequisites[i]))
                    &&& record@.acceptance_refs == row.acceptance_refs@.map_values(
                        |a: String| a@,
                    )
                    &&& record@.claim == match row.claim {
                        Some(c) => Some(
                            ClaimRecordView {
                                worker_id: c.0@,
                                epoch: c.1 as u64,
                                last_heartbeat: c.2 as u64,
                            },
                        ),
                        None => None,
                    }
                    &&& record@.outstanding_action == text_option(row.outstanding_action)
                    &&& record@.state_version == row.state_version
                },
                Err(e) => commitment_row_error(row, e),
            },
    {
        let CommitmentRow {
            commitment_id,
            goal_id,
            parent_id,
            description,
            state,
            outstanding_action,
            state_version,
            claim,
            prerequisites,
            acceptance_refs,
        } = row;
        let claim = match claim {
            Some((worker_id, epoch, heartbeat)) => match ClaimRecord::from_row(
                worker_id,
                epoch,
                heartbeat,
            ) {
                Ok(c) => Some(c),
                Err(e) => {
                    return Err(e);
                },
            },
            None => None,
        };
        let commitment_id = match parse_id::<CommitmentId>(commitment_id, "commitment") {
            Ok(id) => id,
            Err(e) => {
                return Err(e);
            },
        };
        let goal_id = match parse_id::<GoalId>(goal_id, "goal") {
            Ok(id) => id,
            Err(e) => {
                return Err(e);
            },
        };
        let parent_id = match parent_id {
            Some(value) => match parse_id::<CommitmentId>(value, "parent commitment") {
                Ok(id) => Some(id),
                Err(e) => {
                    return Err(e);
                },
            },
            None => None,
        };
        let state = match decode_commitment_state(state) {
            Ok(s) => s,
            Err(e) => {
                return Err(e);
            },
        };
        let decoded_prerequisites = match decode_prerequisites(&prerequisites) {
            Ok(list) => list,
            Err(e) => {
                return Err(e);
            },
        };
        let decoded_refs = match parse_acceptance_refs(&acceptance_refs) {
            Ok(list) => list,
            Err(e) => {
                return Err(e);
            },
        };
        let outstanding_action = match outstanding_action {
            Some(value) => match parse_id::<TethersActionRef>(value, "Tethers action") {
                Ok(id) => Some(id),
                Err(e) => {
                    return Err(e);
                },
            },
            None => None,
        };
        let record = CommitmentRecord {
            commitment_id,
            goal_id,
            parent_id,
            description,
            state,
            prerequisites: decoded_prerequisites,
            acceptance_refs: decoded_refs,
            claim,
            outstanding_action,
            state_version,
        };
        assert(record@.acceptance_refs =~= acceptance_refs@.map_values(|a: String| a@));
        Ok(record)
    }

    pub fn commitment_id(&self) -> (r: &CommitmentId)
        ensures
            r@ == self@.commitment_id,
    {
        &self.commitment_id
    }

    pub fn goal_id(&self) -> (r: &GoalId)
        ensures
            r@ == self@.goal_id,
    {
        &self.goal_id
    }

    pub fn parent_id(&self) -> (r: Option<&CommitmentId>)
        ensures
            match r {
                Some(id) => self@.parent_id == Some(id@),
                None => self@.parent_id is None,
            },
    {
        match &self.parent_id {
            Some(id) => Some(id),
            None => None,
        }
    }

    pub fn description(&self) -> (r: &str)
        ensures
            r@ == self@.description,
    {
        self.description.as_str()
    }

    pub fn state(&self) -> (r: &CommitmentState)
        ensures
            r@ == self@.state,
    {
        &self.state
    }

    pub fn prerequisites(&self) -> (r: &[Prerequisite])
        ensures
            r@.map_values(|p: Prerequisite| p@) == self@.prerequisites,
    {
        self.prerequisites.as_slice()
    }

    pub fn acceptance_refs(&self) -> (r: &[AcceptanceRef])
        ensures
            r@.map_values(|a: AcceptanceRef| a@) == self@.acceptance_refs,
    {
        self.acceptance_refs.as_slice()
    }

    pub fn claim(&self) -> (r: Option<&ClaimRecord>)
        ensures
            match r {
                Some(c) => self@.claim == Some(c@),
                None => self@.claim is None,
            },
    {
        match &self.claim {
            Some(c) => Some(c),
            None => None,
        }
    }

    pub fn outstanding_action(&self) -> (r: Option<&TethersActionRef>)
        ensures
            match r {
                Some(a) => self@.outstanding_action == Some(a@),
                None => self@.outstanding_action is None,
            },
    {
        match &self.outstanding_action {
            Some(a) => Some(a),
            None => None,
        }
    }

    pub fn state_version(&self) -> (r: i64)
        ensures
            r == self@.state_version,
    {
        self.state_version
    }
}

/// The observable content of a stored attention item.
pub struct AttentionRecordView {
    pub attention_id: Seq<char>,
    pub commitment_id: Option<Seq<char>>,
    pub description: Seq<char>,
    pub state: AttentionState,
}

/// The current projection of an attention item.
#[derive(Clone, Debug, PartialEq, Eq)]
pub struct AttentionRecord {
    attention_id: AttentionId,
    commitment_id: Option<CommitmentId>,
    description: String,
    state: AttentionState,
}

impl View for AttentionRecord {
    type V = AttentionRecordView;

    closed spec fn view(&self) -> AttentionRecordView {
        AttentionRecordView {
            attention_id: self.attention_id@,
            commitment_id: id_option_text(self.commitment_id),
            description: self.description@,
            state: self.state,
        }
    }
}

impl AttentionRecord {
    /// Rebuilds an attention item from its stored row: identifier, commitment
    /// reference and state, checked in that order.
    pub fn from_row(
        stored_id: String,
        commitment_id: Option<String>,
        description: String,
        state: String,
    ) -> (r: Result<AttentionRecord, StoreError>)
        ensures
            r is Ok <==> (!is_blank(stored_id@) && optional_text_valid(text_option(commitment_id))
                && exists|s: AttentionState| attention_state_text(s) == state@),
            match r {
                Ok(record) => {
                    &&& record@.attention_id == stored_id@
                    &&& record@.commitment_id == text_option(commitment_id)
                    &&& record@.description == description@
                    &&& attention_state_text(record@.state) == state@
                },
                Err(e) => if is_blank(stored_id@) {
                    is_persisted_error(e, invalid_id_message("attention"@, stored_id@))
                } else if !optional_text_valid(text_option(commitment_id)) {
                    is_persisted_error(
                        e,
                        invalid_id_message("commitment"@, commitment_id->Some_0@),
                    )
                } else {
                    is_persisted_error(e, "unknown attention state "@ + quoted(state@))
                },
            },
    {
        let attention_id = match parse_id::<AttentionId>(stored_id, "attention") {
            Ok(id) => id,
            Err(e) => {
                return Err(e);
            },
        };
        let commitment_id = match commitment_id {
            Some(value) => match parse_id::<CommitmentId>(value, "commitment") {
                Ok(id) => Some(id),
                Err(e) => {
                    return Err(e);
                },
            },
            None => None,
        };
        let state = match decode_attention_state(state.as_str()) {
            Ok(s) => s,
            Err(e) => {
                return Err(e);
            },
        };
        Ok(AttentionRecord { attention_id, commitment_id, description, state })
    }

    pub fn attention_id(&self) -> (r: &AttentionId)
        ensures
            r@ == self@.attention_id,
    {
        &self.attention_id
    }

    pub fn commitment_id(&self) -> (r: Option<&CommitmentId>)
        ensures
            match r {
                Some(id) => self@.commitment_id == Some(id@),
                None => self@.commitment_id is None,
            },
    {
        match &self.commitment_id {
            Some(id) => Some(id),
            None => None,
        }
    }

    pub fn description(&self) -> (r: &str)
        ensures
            r@ == self@.description,
    {
        self.description.as_str()
    }

    pub fn state(&self) -> (r: AttentionState)
        ensures
            r == self@.state,
    {
        self.state
    }
}

/// The observable content of a logged event.
pub struct EventRecordView {
    pub event_id: i64,
    pub goal_id: Seq<char>,
    pub commitment_id: Option<Seq<char>>,
    pub event_type: Seq<char>,
    pub payload_json: Seq<char>,
    pub created_at: i64,
}

/// One row of the append-only event log.
#[derive(Clone, Debug, PartialEq, Eq)]
pub struct EventRecord {
    event_id: i64,
    goal_id: GoalId,
    commitment_id: Option<CommitmentId>,
    event_type: String,
    payload_json: String,
    created_at: i64,
}

impl View for EventRecord {
    type V = EventRecordView;

    closed spec fn view(&self) -> EventRecordView {
        EventRecordView {
            event_id: self.event_id,
            goal_id: self.goal_id@,
            commitment_id: id_option_text(self.commitment_id),
            event_type: self.event_type@,
            payload_json: self.payload_json@,
            created_at: self.created_at,
        }
    }
}

impl EventRecord {
    /// Rebuilds an event from its logged row; its goal and commitment references
    /// must not be blank.
    pub fn from_row(
        event_id: i64,
        goal_id: String,
        commitment_id: Option<String>,
        event_type: String,
        payload_json: String,
        created_at: i64,
    ) -> (r: Result<EventRecord, StoreError>)
        ensures
            r is Ok <==> (!is_blank(goal_id@) && optional_text_valid(text_option(commitment_id))),
            match r {
                Ok(record) => record@ == (EventRecordView {
                    event_id,
                    goal_id: goal_id@,
                    commitment_id: text_option(commitment_id),
                    event_type: event_type@,
                    payload_json: payload_json@,
                    created_at,
                }),
                Err(e) => if is_blank(goal_id@) {
                    is_persisted_error(e, invalid_id_message("goal"@, goal_id@))
                } else {
                    commitment_id matches Some(c) && is_persisted_error(
                        e,
                        invalid_id_message("commitment"@, c@),
                    )
                },
            },
    {
        let goal_id = match parse_id::<GoalId>(goal_id, "goal") {
            Ok(id) => id,
            Err(e) => {
                return Err(e);
            },
        };
        let commitment_id = match commitment_id {
            Some(value) => match parse_id::<CommitmentId>(value, "commitment") {
                Ok(id) => Some(id),
                Err(e) => {
                    return Err(e);
                },
            },
            None => None,
        };
        Ok(EventRecord { event_id, goal_id, commitment_id, event_type, payload_json, created_at })
    }

    /// The error that reports this event's payload as unreadable, with the parser's message.
    pub fn invalid_payload(&self, detail: &str) -> (r: StoreError)
        ensures
            r matches StoreError::InvalidPersistedData(m) && m@ == "event "@ + signed_decimal(
                self@.event_id as int,
            ) + " has invalid payload JSON: "@ + detail@,
    {
        let head = join_text("event ", decimal_i64(self.event_id).as_str());
        let head = join_text(head.as_str(), " has invalid payload JSON: ");
        StoreError::InvalidPersistedData(join_text(head.as_str(), detail))
    }

    pub fn event_id(&self) -> (r: i64)
        ensures
            r == self@.event_id,
    {
        self.event_id
    }

    pub fn goal_id(&self) -> (r: &GoalId)
        ensures
            r@ == self@.goal_id,
    {
        &self.goal_id
    }

    pub fn commitment_id(&self) -> (r: Option<&CommitmentId>)
        ensures
            match r {
                Some(id) => self@.commitment_id == Some(id@),
                None => self@.commitment_id is None,
            },
    {
        match &self.commitment_id {
            Some(id) => Some(id),
            None => None,
        }
    }

    pub fn event_type(&self) -> (r: &str)
        ensures
            r@ == self@.event_type,
    {
        self.event_type.as_str()
    }

    pub fn payload_json(&self) -> (r: &str)
        ensures
            r@ == self@.payload_json,
    {
        self.payload_json.as_str()
    }

    pub fn created_at(&self) -> (r: i64)
        ensures
            r == self@.created_at,
    {
        self.created_at
    }
}

/// The columns of a stored execution guard, with its outcome column already parsed.
pub struct RawGuardColumns {
    pub guard_id: String,
    pub commitment_id: String,
    pub claim_epoch: i64,
    pub boot_generation: i64,
    pub state: String,
    pub action_ref: Option<String>,
    pub outcome: Option<Result<StoredTethersOutcome, StoreError>>,
    pub reservation_expires_at: Option<i64>,
    pub state_version: i64,
}

/// A validated stored execution guard.
#[derive(Debug)]
pub struct GuardRow {
    pub guard_id: GuardId,
    pub commitment_id: CommitmentId,
    pub claim_epoch: ClaimEpoch,
    pub boot_generation: BootGeneration,
    pub state: GuardState,
    pub reservation_expires_at: Option<MonotonicInstant>,
    pub state_version: i64,
}

/// Every column of a stored guard can be read back.
pub open spec fn guard_columns_decodable(columns: RawGuardColumns) -> bool {
    &&& guard_state_decoding(
        columns.state@,
        text_option(columns.action_ref),
        parsed_outcome_view(columns.outcome),
        columns.reservation_expires_at is Some,
    ) is Ok
    &&& !is_blank(columns.guard_id@)
    &&& !is_blank(columns.commitment_id@)
    &&& columns.claim_epoch > 0
    &&& columns.boot_generation >= 0
    &&& (columns.reservation_expires_at matches Some(t) ==> t >= 0)
}

/// `e` reports the first malformed field of a guard whose lifecycle state is readable.
pub open spec fn is_guard_field_error(columns: RawGuardColumns, e: StoreError) -> bool {
    if is_blank(columns.guard_id@) {
        e matches StoreError::InvalidPersistedData(m) && m@ == invalid_id_message(
            "guard"@,
            columns.guard_id@,
        )
    } else if is_blank(columns.commitment_id@) {
        e matches StoreError::InvalidPersistedData(m) && m@ == invalid_id_message(
            "commitment"@,
            columns.commitment_id@,
        )
    } else if columns.claim_epoch <= 0 {
        e == StoreError::Domain(DomainError::InvalidNumericValue { kind: "claim epoch" })
    } else if columns.boot_generation < 0 {
        e == StoreError::Domain(DomainError::InvalidNumericValue { kind: "boot generation" })
    } else {
        e == StoreError::Domain(DomainError::InvalidNumericValue { kind: "monotonic instant" })
    }
}

/// Rebuilds a guard from its stored columns: the lifecycle state first, then the
/// identifiers, the claim epoch, the boot generation and the reservation expiry.
pub fn decode_guard_row(columns: RawGuardColumns) -> (r: Result<GuardRow, StoreError>)
    ensures
        r is Ok <==> guard_columns_decodable(columns),
        match r {
            Ok(row) => {
                &&& guard_state_decoding(
                    columns.state@,
                    text_option(columns.action_ref),
                    parsed_outcome_view(columns.outcome),
                    columns.reservation_expires_at is Some,
                ) == Ok::<GuardStateView, Option<Seq<char>>>(row.state@)
                &&& row.guard_id@ == columns.guard_id@
                &&& row.commitment_id@ == columns.commitment_id@
                &&& row.claim_epoch@ as int == columns.claim_epoch as int
                &&& row.boot_generation@ as int == columns.boot_generation as int
                &&& match columns.reservation_expires_at {
                    Some(t) => row.reservation_expires_at matches Some(i) && i@ as int == t as int,
                    None => row.reservation_expires_at is None,
                }
                &&& row.state_version == columns.state_version
            },
            Err(e) => {
                &&& guard_state_decoding(
                    columns.state@,
                    text_option(columns.action_ref),
                    parsed_outcome_view(columns.outcome),
                    columns.reservation_expires_at is Some,
                ) matches Err(None) ==> columns.outcome matches Some(Err(inner)) && e == inner
                &&& guard_state_decoding(
                    columns.state@,
                    text_option(columns.action_ref),
                    parsed_outcome_view(columns.outcome),
                    columns.reservation_expires_at is Some,
                ) matches Err(Some(m)) ==> e matches StoreError::InvalidPersistedData(t) && t@ == m
                &&& guard_state_decoding(
                    columns.state@,
                    text_option(columns.action_ref),
                    parsed_outcome_view(columns.outcome),
                    columns.reservation_expires_at is Some,
                ) is Ok ==> is_guard_field_error(columns, e)
            },
        },
{
    let RawGuardColumns {
        guard_id,
        commitment_id,
        claim_epoch,
        boot_generation,
        state,
        action_ref,
        outcome,
        reservation_expires_at,
        state_version,
    } = columns;
    let state = match decode_guard_state(state.as_str(), action_ref, outcome, reservation_expires_at) {
        Ok(s) => s,
        Err(e) => {
            return Err(e);
        },
    };
    let guard_id = match parse_id::<GuardId>(guard_id, "guard") {
        Ok(id) => id,
        Err(e) => {
            return Err(e);
        },
    };
    let commitment_id = match parse_id::<CommitmentId>(commitment_id, "commitment") {
        Ok(id) => id,
        Err(e) => {
            return Err(e);
        },
    };
    let claim_epoch = match ClaimEpoch::try_from_raw(claim_epoch) {
        Ok(epoch) => epoch,
        Err(e) => {
            return Err(StoreError::Domain(e));
        },
    };
    let boot_generation = match BootGeneration::try_from_raw(boot_generation) {
        Ok(generation) => generation,
        Err(e) => {
            return Err(StoreError::Domain(e));
        },
    };
    let reservation_expires_at = match reservation_expires_at {
        Some(ticks) => match MonotonicInstant::try_from_raw(ticks) {
            Ok(instant) => Some(instant),
            Err(e) => {
                return Err(StoreError::Domain(e));
            },
        },
        None => None,
    };
    Ok(
        GuardRow {
            guard_id,
            commitment_id,
            claim_epoch,
            boot_generation,
            state,
            reservation_expires_at,
            state_version,
        },
    )
}

/// The observable content of a stored guard.
pub struct GuardRecordView {
    pub guard_id: Seq<char>,
    pub commitment_id: Seq<char>,
    pub claim_epoch: ClaimEpoch,
    pub scope_keys: Seq<ScopeKey>,
    pub boot_generation: BootGeneration,
    pub state: GuardStateView,
    pub reservation_expires_at: Option<MonotonicInstant>,
}

/// The current projection of an execution guard with its scope set.
#[derive(Clone, Debug, PartialEq, Eq)]
pub struct GuardRecord {
    guard_id: GuardId,
    commitment_id: CommitmentId,
    claim_epoch: ClaimEpoch,
    scope_keys: ScopeSet,
    boot_generation: BootGeneration,
    state: GuardState,
    reservation_expires_at: Option<MonotonicInstant>,
}

impl View for GuardRecord {
    type V = GuardRecordView;

    closed spec fn view(&self) -> GuardRecordView {
        GuardRecordView {
            guard_id: self.guard_id@,
            commitment_id: self.commitment_id@,
            claim_epoch: self.claim_epoch,
            scope_keys: self.scope_keys@,
            boot_generation: self.boot_generation,
            state: self.state@,
            reservation_expires_at: self.reservation_expires_at,
        }
    }
}

impl GuardRecord {
    /// The record of a validated guard row and its stored scope set.
    pub fn from_row(row: GuardRow, scope_keys: ScopeSet) -> (r: GuardRecord)
        ensures
            r@ == (GuardRecordView {
                guard_id: row.guard_id@,
                commitment_id: row.commitment_id@,
                claim_epoch: row.claim_epoch,
                scope_keys: scope_keys@,
                boot_generation: row.boot_generation,
                state: row.state@,
                reservation_expires_at: row.reservation_expires_at,
            }),
    {
        GuardRecord {
            guard_id: row.guard_id,
            commitment_id: row.commitment_id,
            claim_epoch: row.claim_epoch,
            scope_keys,
            boot_generation: row.boot_generation,
            state: row.state,
            reservation_expires_at: row.reservation_expires_at,
        }
    }

    pub fn guard_id(&self) -> (r: &GuardId)
        ensures
            r@ == self@.guard_id,
    {
        &self.guard_id
    }

    pub fn commitment_id(&self) -> (r: &CommitmentId)
        ensures
            r@ == self@.commitment_id,
    {
        &self.commitment_id
    }

    pub fn claim_epoch(&self) -> (r: ClaimEpoch)
        ensures
            r == self@.claim_epoch,
    {
        self.claim_epoch
    }

    pub fn scope_keys(&self) -> (r: &[ScopeKey])
        ensures
            r@ == self@.scope_keys,
    {
        self.scope_keys.as_slice()
    }

    pub fn boot_generation(&self) -> (r: BootGeneration)
        ensures
            r == self@.boot_generation,
    {
        self.boot_generation
    }

    pub fn state(&self) -> (r: &GuardState)
        ensures
            r@ == self@.state,
    {
        &self.state
    }

    pub fn reservation_expires_at(&self) -> (r: Option<MonotonicInstant>)
        ensures
            r == self@.reservation_expires_at,
    {
        self.reservation_expires_at
    }
}

/// How a successful admission request was answered.
#[derive(Clone, Copy, Debug, PartialEq, Eq, Structural)]
pub enum GuardAdmission {
    Admitted,
    AlreadyAdmitted,
}

/// Everything the store needs to issue a guard.
#[derive(Debug)]
pub struct GuardIssueRequest {
    pub guard_id: GuardId,
    pub commitment_id: CommitmentId,
    pub worker_id: WorkerId,
    pub claim_epoch: ClaimEpoch,
    pub scope_keys: ScopeSet,
    pub boot_generation: BootGeneration,
    pub now: MonotonicInstant,
    pub guard_ttl: MonotonicDuration,
    pub claim_lease_duration: MonotonicDuration,
}

} // verus!
