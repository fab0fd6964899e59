//! The event log's encoding of accepted mutations, and the checks that tie an
//! event to the mutation it records.
use crate::codec::{text_option, StoredTethersOutcome, StoredWaitingReason};
use crate::domain::{TethersOutcomeView, WaitingReasonView, WorkEvent};
use crate::ids::{AttentionId, CommitmentId, GoalId};
use crate::store_error::StoreError;
use crate::text::join_text;
use vstd::prelude::*;

verus! {

/// An event's payload in its serialised form: references as plain text and
/// counters as integers.
pub enum StoredEventPayload {
    GoalCreated { goal_id: String, revision: u64 },
    GoalRevised { goal_id: String, revision: u64 },
    CommitmentCreated { commitment_id: String, goal_id: String },
    CommitmentActivated { commitment_id: String },
    CommitmentClaimed { commitment_id: String, worker_id: String, epoch: u64 },
    CommitmentStarted { commitment_id: String },
    CommitmentWaiting { commitment_id: String, reason: StoredWaitingReason },
    CommitmentRecoveryPending { commitment_id: String },
    CommitmentCompletionProposed { commitment_id: String },
    CommitmentCompleted { commitment_id: String },
    CommitmentCancelled { commitment_id: String },
    CommitmentAbandoned { commitment_id: String },
    HeartbeatAccepted { commitment_id: String, worker_id: String, epoch: u64 },
    LeaseExpired { commitment_id: String, worker_id: String, epoch: u64 },
    GuardIssued { guard_id: String, commitment_id: String, claim_epoch: u64 },
    GuardAdmitted { guard_id: String, commitment_id: String, action_ref: String },
    GuardInvalidated { guard_id: String },
    GuardReservationExpired { guard_id: String },
    TethersOutcomeRecorded { outcome: StoredTethersOutcome },
    RecoveryCompleted { commitment_id: String, action_ref: String },
    RecoveryReleased { commitment_id: String },
    StructuralProposalApplied { target: String },
    AttentionRaised { attention_id: String, commitment_id: Option<String> },
    AttentionCleared { attention_id: String },
}

/// The view of an optional commitment reference.
pub open spec fn commitment_option_view(id: Option<CommitmentId>) -> Option<Seq<char>> {
    match id {
        Some(id) => Some(id@),
        None => None,
    }
}

/// `payload` is the serialised form of `event`: the same variant, with every
/// reference holding the same text and every counter the same value.
pub open spec fn payload_describes(payload: StoredEventPayload, event: WorkEvent) -> bool {
    match event {
        WorkEvent::GoalCreated { goal_id, revision } => payload matches StoredEventPayload::GoalCreated {
            goal_id: g,
            revision: n,
        } && g@ == goal_id@ && n == revision@,
        WorkEvent::GoalRevised { goal_id, revision } => payload matches StoredEventPayload::GoalRevised {
            goal_id: g,
            revision: n,
        } && g@ == goal_id@ && n == revision@,
        WorkEvent::CommitmentCreated {
            commitment_id,
            goal_id,
        } => payload matches StoredEventPayload::CommitmentCreated { commitment_id: c, goal_id: g }
            && c@ == commitment_id@ && g@ == goal_id@,
        WorkEvent::CommitmentActivated {
            commitment_id,
        } => payload matches StoredEventPayload::CommitmentActivated { commitment_id: c } && c@
            == commitment_id@,
        WorkEvent::CommitmentClaimed {
            commitment_id,
            worker_id,
            epoch,
        } => payload matches StoredEventPayload::CommitmentClaimed {
            commitment_id: c,
            worker_id: w,
            epoch: n,
        } && c@ == commitment_id@ && w@ == worker_id@ && n == epoch@,
        WorkEvent::CommitmentStarted {
            commitment_id,
        } => payload matches StoredEventPayload::CommitmentStarted { commitment_id: c } && c@
            == commitment_id@,
        WorkEvent::CommitmentWaiting {
            commitment_id,
            reason,
        } => payload matches StoredEventPayload::CommitmentWaiting { commitment_id: c, reason: r }
            && c@ == commitment_id@ && r@ == reason@,
        WorkEvent::CommitmentRecoveryPending {
            commitment_id,
        } => payload matches StoredEventPayload::CommitmentRecoveryPending { commitment_id: c }
            && c@ == commitment_id@,
        WorkEvent::CommitmentCompletionProposed {
            commitment_id,
        } => payload matches StoredEventPayload::CommitmentCompletionProposed { commitment_id: c }
            && c@ == commitment_id@,
        WorkEvent::CommitmentCompleted {
            commitment_id,
        } => payload matches StoredEventPayload::CommitmentCompleted { commitment_id: c } && c@
            == commitment_id@,
        WorkEvent::CommitmentCancelled {
            commitment_id,
        } => payload matches StoredEventPayload::CommitmentCancelled { commitment_id: c } && c@
            == commitment_id@,
        WorkEvent::CommitmentAbandoned {
            commitment_id,
        } => payload matches StoredEventPayload::CommitmentAbandoned { commitment_id: c } && c@
            == commitment_id@,
        WorkEvent::HeartbeatAccepted {
            commitment_id,
            worker_id,
            epoch,
        } => payload matches StoredEventPayload::HeartbeatAccepted {
            commitment_id: c,
            worker_id: w,
            epoch: n,
        } && c@ == commitment_id@ && w@ == worker_id@ && n == epoch@,
        WorkEvent::LeaseExpired {
            commitment_id,
            worker_id,
            epoch,
        } => payload matches StoredEventPayload::LeaseExpired {
            commitment_id: c,
            worker_id: w,
            epoch: n,
        } && c@ == commitment_id@ && w@ == worker_id@ && n == epoch@,
        WorkEvent::GuardIssued {
            guard_id,
            commitment_id,
            claim_epoch,
        } => payload matches StoredEventPayload::GuardIssued {
            guard_id: g,
            commitment_id: c,
            claim_epoch: n,
        } && g@ == guard_id@ && c@ == commitment_id@ && n == claim_epoch@,
        WorkEvent::GuardAdmitted {
            guard_id,
            commitment_id,
            action_ref,
        } => payload matches StoredEventPayload::GuardAdmitted {
            guard_id: g,
            commitment_id: c,
            action_ref: a,
        } && g@ == guard_id@ && c@ == commitment_id@ && a@ == action_ref@,
        WorkEvent::GuardInvalidated { guard_id } => payload matches StoredEventPayload::GuardInvalidated {
            guard_id: g,
        } && g@ == guard_id@,
        WorkEvent::GuardReservationExpired {
            guard_id,
        } => payload matches StoredEventPayload::GuardReservationExpired { guard_id: g } && g@
            == guard_id@,
        WorkEvent::TethersOutcomeRecorded {
            outcome,
        } => payload matches StoredEventPayload::TethersOutcomeRecorded { outcome: o } && o@
            == outcome@,
        WorkEvent::RecoveryCompleted {
            commitment_id,
            action_ref,
        } => payload matches StoredEventPayload::RecoveryCompleted {
            commitment_id: c,
            action_ref: a,
        } && c@ == commitment_id@ && a@ == action_ref@,
        WorkEvent::RecoveryReleased {
            commitment_id,
        } => payload matches StoredEventPayload::RecoveryReleased { commitment_id: c } && c@
            == commitment_id@,
        WorkEvent::StructuralProposalApplied {
            target,
        } => payload matches StoredEventPayload::StructuralProposalApplied { target: t } && t@
            == target@,
        WorkEvent::AttentionRaised {
            attention_id,
            commitment_id,
        } => payload matches StoredEventPayload::AttentionRaised {
            attention_id: a,
            commitment_id: c,
        } && a@ == attention_id@ && text_option(c) == commitment_option_view(commitment_id),
        WorkEvent::AttentionCleared {
            attention_id,
        } => payload matches StoredEventPayload::AttentionCleared { attention_id: a } && a@
            == attention_id@,
    }
}

/// The serialised payload of `event`.
pub fn encode_event_payload(event: &WorkEvent) -> (r: StoredEventPayload)
    ensures
        payload_describes(r, *event),
{
    match event {
        WorkEvent::GoalCreated { goal_id, revision } => StoredEventPayload::GoalCreated {
            goal_id: goal_id.as_str().to_owned(),
            revision: revision.value(),
        },
        WorkEvent::GoalRevised { goal_id, revision } => StoredEventPayload::GoalRevised {
            goal_id: goal_id.as_str().to_owned(),
            revision: revision.value(),
        },
        WorkEvent::CommitmentCreated { commitment_id, goal_id } => {
            StoredEventPayload::CommitmentCreated {
                commitment_id: commitment_id.as_str().to_owned(),
                goal_id: goal_id.as_str().to_owned(),
            }
        },
        WorkEvent::CommitmentActivated { commitment_id } => {
            StoredEventPayload::CommitmentActivated {
                commitment_id: commitment_id.as_str().to_owned(),
            }
        },
        WorkEvent::CommitmentClaimed { commitment_id, worker_id, epoch } => {
            StoredEventPayload::CommitmentClaimed {
                commitment_id: commitment_id.as_str().to_owned(),
                worker_id: worker_id.as_str().to_owned(),
                epoch: epoch.value(),
            }
        },
        WorkEvent::CommitmentStarted { commitment_id } => StoredEventPayload::CommitmentStarted {
            commitment_id: commitment_id.as_str().to_owned(),
        },
        WorkEvent::CommitmentWaiting { commitment_id, reason } => {
            StoredEventPayload::CommitmentWaiting {
                commitment_id: commitment_id.as_str().to_owned(),
                reason: StoredWaitingReason::from_reason(reason),
            }
        },
        WorkEvent::CommitmentRecoveryPending { commitment_id } => {
            StoredEventPayload::CommitmentRecoveryPending {
                commitment_id: commitment_id.as_str().to_owned(),
            }
        },
        WorkEvent::CommitmentCompletionProposed { commitment_id } => {
            StoredEventPayload::CommitmentCompletionProposed {
                commitment_id: commitment_id.as_str().to_owned(),
            }
        },
        WorkEvent::CommitmentCompleted { commitment_id } => {
            StoredEventPayload::CommitmentCompleted {
                commitment_id: commitment_id.as_str().to_owned(),
            }
        },
        WorkEvent::CommitmentCancelled { commitment_id } => {
            StoredEventPayload::CommitmentCancelled {
                commitment_id: commitment_id.as_str().to_owned(),
            }
        },
        WorkEvent::CommitmentAbandoned { commitment_id } => {
            StoredEventPayload::CommitmentAbandoned {
                commitment_id: commitment_id.as_str().to_owned(),
            }
        },
        WorkEvent::HeartbeatAccepted { commitment_id, worker_id, epoch } => {
            StoredEventPayload::HeartbeatAccepted {
                commitment_id: commitment_id.as_str().to_owned(),
                worker_id: worker_id.as_str().to_owned(),
                epoch: epoch.value(),
            }
        },
        WorkEvent::LeaseExpired { commitment_id, worker_id, epoch } => {
            StoredEventPayload::LeaseExpired {
                commitment_id: commitment_id.as_str().to_owned(),
                worker_id: worker_id.as_str().to_owned(),
                epoch: epoch.value(),
            }
        },
        WorkEvent::GuardIssued { guard_id, commitment_id, claim_epoch } => {
            StoredEventPayload::GuardIssued {
                guard_id: guard_id.as_str().to_owned(),
                commitment_id: commitment_id.as_str().to_owned(),
                claim_epoch: claim_epoch.value(),
            }
        },
        WorkEvent::GuardAdmitted { guard_id, commitment_id, action_ref } => {
            StoredEventPayload::GuardAdmitted {
                guard_id: guard_id.as_str().to_owned(),
                commitment_id: commitment_id.as_str().to_owned(),
                action_ref: action_ref.as_str().to_owned(),
            }
        },
        WorkEvent::GuardInvalidated { guard_id } => StoredEventPayload::GuardInvalidated {
            guard_id: guard_id.as_str().to_owned(),
        },
        WorkEvent::GuardReservationExpired { guard_id } => {
            StoredEventPayload::GuardReservationExpired { guard_id: guard_id.as_str().to_owned() }
        },
        WorkEvent::TethersOutcomeRecorded { outcome } => {
            StoredEventPayload::TethersOutcomeRecorded {
                outcome: StoredTethersOutcome::from_outcome(outcome),
            }
        },
        WorkEvent::RecoveryCompleted { commitment_id, action_ref } => {
            StoredEventPayload::RecoveryCompleted {
                commitment_id: commitment_id.as_str().to_owned(),
                action_ref: action_ref.as_str().to_owned(),
            }
        },
        WorkEvent::RecoveryReleased { commitment_id } => StoredEventPayload::RecoveryReleased {
            commitment_id: commitment_id.as_str().to_owned(),
        },
        WorkEvent::StructuralProposalApplied { target } => {
            StoredEventPayload::StructuralProposalApplied { target: target.as_str().to_owned() }
        },
        WorkEvent::AttentionRaised { attention_id, commitment_id } => {
            let commitment_text = match commitment_id {
                Some(id) => Some(id.as_str().to_owned()),
                None => None,
            };
            StoredEventPayload::AttentionRaised {
                attention_id: attention_id.as_str().to_owned(),
                commitment_id: commitment_text,
            }
        },
        WorkEvent::AttentionCleared { attention_id } => StoredEventPayload::AttentionCleared {
            attention_id: attention_id.as_str().to_owned(),
        },
    }
}

/// The position of a payload's kind in the event vocabulary, read from the payload alone.
pub open spec fn payload_kind(payload: StoredEventPayload) -> int {
    match payload {
        StoredEventPayload::GoalCreated { .. } => 0,
        StoredEventPayload::GoalRevised { .. } => 1,
        StoredEventPayload::CommitmentCreated { .. } => 2,
        StoredEventPayload::CommitmentActivated { .. } => 3,
        StoredEventPayload::CommitmentClaimed { .. } => 4,
        StoredEventPayload::CommitmentStarted { .. } => 5,
        StoredEventPayload::CommitmentWaiting { .. } => 6,
        StoredEventPayload::CommitmentRecoveryPending { .. } => 7,
        StoredEventPayload::CommitmentCompletionProposed { .. } => 8,
        StoredEventPayload::CommitmentCompleted { .. } => 9,
        StoredEventPayload::CommitmentCancelled { .. } => 10,
        StoredEventPayload::CommitmentAbandoned { .. } => 11,
        StoredEventPayload::HeartbeatAccepted { .. } => 12,
        StoredEventPayload::LeaseExpired { .. } => 13,
        StoredEventPayload::GuardIssued { .. } => 14,
        StoredEventPayload::GuardAdmitted { .. } => 15,
        StoredEventPayload::GuardInvalidated { .. } => 16,
        StoredEventPayload::GuardReservationExpired { .. } => 17,
        StoredEventPayload::TethersOutcomeRecorded { .. } => 18,
        StoredEventPayload::RecoveryCompleted { .. } => 19,
        StoredEventPayload::RecoveryReleased { .. } => 20,
        StoredEventPayload::StructuralProposalApplied { .. } => 21,
        StoredEventPayload::AttentionRaised { .. } => 22,
        StoredEventPayload::AttentionCleared { .. } => 23,
    }
}

/// The goal reference a payload carries, if its kind has one.
pub open spec fn payload_goal(payload: StoredEventPayload) -> Option<Seq<char>> {
    match payload {
        StoredEventPayload::GoalCreated { goal_id: x, .. } => Some(x@),
        StoredEventPayload::GoalRevised { goal_id: x, .. } => Some(x@),
        StoredEventPayload::CommitmentCreated { goal_id: x, .. } => Some(x@),
        _ => None,
    }
}

/// The goal reference an event carries, if its kind has one.
pub open spec fn event_goal(event: WorkEvent) -> Option<Seq<char>> {
    match event {
        WorkEvent::GoalCreated { goal_id: x, .. } => Some(x@),
        WorkEvent::GoalRevised { goal_id: x, .. } => Some(x@),
        WorkEvent::CommitmentCreated { goal_id: x, .. } => Some(x@),
        _ => None,
    }
}

/// The commitment reference a payload carries, if its kind has one.
pub open spec fn payload_commitment(payload: StoredEventPayload) -> Option<Seq<char>> {
    match payload {
        StoredEventPayload::CommitmentCreated { commitment_id: x, .. } => Some(x@),
        StoredEventPayload::CommitmentActivated { commitment_id: x, .. } => Some(x@),
        StoredEventPayload::CommitmentClaimed { commitment_id: x, .. } => Some(x@),
        StoredEventPayload::CommitmentStarted { commitment_id: x, .. } => Some(x@),
        StoredEventPayload::CommitmentWaiting { commitment_id: x, .. } => Some(x@),
        StoredEventPayload::CommitmentRecoveryPending { commitment_id: x, .. } => Some(x@),
        StoredEventPayload::CommitmentCompletionProposed { commitment_id: x, .. } => Some(x@),
        StoredEventPayload::CommitmentCompleted { commitment_id: x, .. } => Some(x@),
        StoredEventPayload::CommitmentCancelled { commitment_id: x, .. } => Some(x@),
        StoredEventPayload::CommitmentAbandoned { commitment_id: x, .. } => Some(x@),
        StoredEventPayload::HeartbeatAccepted { commitment_id: x, .. } => Some(x@),
        StoredEventPayload::LeaseExpired { commitment_id: x, .. } => Some(x@),
        StoredEventPayload::GuardIssued { commitment_id: x, .. } => Some(x@),
        StoredEventPayload::GuardAdmitted { commitment_id: x, .. } => Some(x@),
        StoredEventPayload::RecoveryCompleted { commitment_id: x, .. } => Some(x@),
        StoredEventPayload::RecoveryReleased { commitment_id: x, .. } => Some(x@),
        StoredEventPayload::AttentionRaised { commitment_id: x, .. } => text_option(x),
        _ => None,
    }
}

/// The worker reference a payload carries, if its kind has one.
pub open spec fn payload_worker(payload: StoredEventPayload) -> Option<Seq<char>> {
    match payload {
        StoredEventPayload::CommitmentClaimed { worker_id: x, .. } => Some(x@),
        StoredEventPayload::HeartbeatAccepted { worker_id: x, .. } => Some(x@),
        StoredEventPayload::LeaseExpired { worker_id: x, .. } => Some(x@),
        _ => None,
    }
}

/// The worker reference an event carries, if its kind has one.
pub open spec fn event_worker(event: WorkEvent) -> Option<Seq<char>> {
    match event {
        WorkEvent::CommitmentClaimed { worker_id: x, .. } => Some(x@),
        WorkEvent::HeartbeatAccepted { worker_id: x, .. } => Some(x@),
        WorkEvent::LeaseExpired { worker_id: x, .. } => Some(x@),
        _ => None,
    }
}

/// The guard reference a payload carries, if its kind has one.
pub open spec fn payload_guard(payload: StoredEventPayload) -> Option<Seq<char>> {
    match payload {
        StoredEventPayload::GuardIssued { guard_id: x, .. } => Some(x@),
        StoredEventPayload::GuardAdmitted { guard_id: x, .. } => Some(x@),
        StoredEventPayload::GuardInvalidated { guard_id: x, .. } => Some(x@),
        StoredEventPayload::GuardReservationExpired { guard_id: x, .. } => Some(x@),
        _ => None,
    }
}

/// The guard reference an event carries, if its kind has one.
pub open spec fn event_guard(event: WorkEvent) -> Option<Seq<char>> {
    match event {
        WorkEvent::GuardIssued { guard_id: x, .. } => Some(x@),
        WorkEvent::GuardAdmitted { guard_id: x, .. } => Some(x@),
        WorkEvent::GuardInvalidated { guard_id: x, .. } => Some(x@),
        WorkEvent::GuardReservationExpired { guard_id: x, .. } => Some(x@),
        _ => None,
    }
}

/// The Tethers action reference a payload carries, if its kind has one.
pub open spec fn payload_action(payload: StoredEventPayload) -> Option<Seq<char>> {
    match payload {
        StoredEventPayload::GuardAdmitted { action_ref: x, .. } => Some(x@),
        StoredEventPayload::RecoveryCompleted { action_ref: x, .. } => Some(x@),
        _ => None,
    }
}

/// The Tethers action reference an event carries, if its kind has one.
pub open spec fn event_action(event: WorkEvent) -> Option<Seq<char>> {
    match event {
        WorkEvent::GuardAdmitted { action_ref: x, .. } => Some(x@),
        WorkEvent::RecoveryCompleted { action_ref: x, .. } => Some(x@),
        _ => None,
    }
}

/// The attention reference a payload carries, if its kind has one.
pub open spec fn payload_attention(payload: StoredEventPayload) -> Option<Seq<char>> {
    match payload {
        StoredEventPayload::AttentionRaised { attention_id: x, .. } => Some(x@),
        StoredEventPayload::AttentionCleared { attention_id: x, .. } => Some(x@),
        _ => None,
    }
}

/// The attention reference an event carries, if its kind has one.
pub open spec fn event_attention(event: WorkEvent) -> Option<Seq<char>> {
    match event {
        WorkEvent::AttentionRaised { attention_id: x, .. } => Some(x@),
        WorkEvent::AttentionCleared { attention_id: x, .. } => Some(x@),
        _ => None,
    }
}

/// The structural-proposal target a payload carries, if its kind has one.
pub open spec fn payload_target(payload: StoredEventPayload) -> Option<Seq<char>> {
    match payload {
        StoredEventPayload::StructuralProposalApplied { target: x, .. } => Some(x@),
        _ => None,
    }
}

/// The structural-proposal target an event carries, if its kind has one.
pub open spec fn event_target(event: WorkEvent) -> Option<Seq<char>> {
    match event {
        WorkEvent::StructuralProposalApplied { target: x, .. } => Some(x@),
        _ => None,
    }
}

/// The counter (revision or claim epoch) a payload carries, if its kind has one.
pub open spec fn payload_counter(payload: StoredEventPayload) -> Option<u64> {
    match payload {
        StoredEventPayload::GoalCreated { revision: x, .. } => Some(x),
        StoredEventPayload::GoalRevised { revision: x, .. } => Some(x),
        StoredEventPayload::CommitmentClaimed { epoch: x, .. } => Some(x),
        StoredEventPayload::HeartbeatAccepted { epoch: x, .. } => Some(x),
        StoredEventPayload::LeaseExpired { epoch: x, .. } => Some(x),
        StoredEventPayload::GuardIssued { claim_epoch: x, .. } => Some(x),
        _ => None,
    }
}

/// The counter (revision or claim epoch) an event carries, if its kind has one.
pub open spec fn event_counter(event: WorkEvent) -> Option<u64> {
    match event {
        WorkEvent::GoalCreated { revision: x, .. } => Some(x@),
        WorkEvent::GoalRevised { revision: x, .. } => Some(x@),
        WorkEvent::CommitmentClaimed { epoch: x, .. } => Some(x@),
        WorkEvent::HeartbeatAccepted { epoch: x, .. } => Some(x@),
        WorkEvent::LeaseExpired { epoch: x, .. } => Some(x@),
        WorkEvent::GuardIssued { claim_epoch: x, .. } => Some(x@),
        _ => None,
    }
}

/// The waiting reason a payload carries, if its kind has one.
pub open spec fn payload_reason(payload: StoredEventPayload) -> Option<WaitingReasonView> {
    match payload {
        StoredEventPayload::CommitmentWaiting { reason: x, .. } => Some(x@),
        _ => None,
    }
}

/// The waiting reason an event carries, if its kind has one.
pub open spec fn event_reason(event: WorkEvent) -> Option<WaitingReasonView> {
    match event {
        WorkEvent::CommitmentWaiting { reason: x, .. } => Some(x@),
        _ => None,
    }
}

/// The Tethers outcome a payload carries, if its kind has one.
pub open spec fn payload_outcome(payload: StoredEventPayload) -> Option<TethersOutcomeView> {
    match payload {
        StoredEventPayload::TethersOutcomeRecorded { outcome: x, .. } => Some(x@),
        _ => None,
    }
}

/// The Tethers outcome an event carries, if its kind has one.
pub open spec fn event_outcome(event: WorkEvent) -> Option<TethersOutcomeView> {
    match event {
        WorkEvent::TethersOutcomeRecorded { outcome: x, .. } => Some(x@),
        _ => None,
    }
}

/// A logged payload holds the event it records, field by field: the same kind, and each
/// reference, counter, reason and outcome the event carries under the same name (the
/// commitment reference being the one in the log's commitment column).
pub proof fn lemma_payload_fields_are_the_event_fields(payload: StoredEventPayload, event: WorkEvent)
    requires
        payload_describes(payload, event),
    ensures
        payload_kind(payload) == event_kind(event),
        payload_commitment(payload) == commitment_option_view(event_commitment(event)),
        payload_goal(payload) == event_goal(event),
        payload_worker(payload) == event_worker(event),
        payload_guard(payload) == event_guard(event),
        payload_action(payload) == event_action(event),
        payload_attention(payload) == event_attention(event),
        payload_target(payload) == event_target(event),
        payload_counter(payload) == event_counter(event),
        payload_reason(payload) == event_reason(event),
        payload_outcome(payload) == event_outcome(event),
{
}

/// The `event_type` column under which each kind of event is logged.
pub open spec fn event_type_name(event: WorkEvent) -> Seq<char> {
    match event {
        WorkEvent::GoalCreated { .. } => "goal_created"@,
        WorkEvent::GoalRevised { .. } => "goal_revised"@,
        WorkEvent::CommitmentCreated { .. } => "commitment_created"@,
        WorkEvent::CommitmentActivated { .. } => "commitment_activated"@,
        WorkEvent::CommitmentClaimed { .. } => "commitment_claimed"@,
        WorkEvent::CommitmentStarted { .. } => "commitment_started"@,
        WorkEvent::CommitmentWaiting { .. } => "commitment_waiting"@,
        WorkEvent::CommitmentRecoveryPending { .. } => "commitment_recovery_pending"@,
        WorkEvent::CommitmentCompletionProposed { .. } => "commitment_completion_proposed"@,
        WorkEvent::CommitmentCompleted { .. } => "commitment_completed"@,
        WorkEvent::CommitmentCancelled { .. } => "commitment_cancelled"@,
        WorkEvent::CommitmentAbandoned { .. } => "commitment_abandoned"@,
        WorkEvent::HeartbeatAccepted { .. } => "heartbeat_accepted"@,
        WorkEvent::LeaseExpired { .. } => "lease_expired"@,
        WorkEvent::GuardIssued { .. } => "guard_issued"@,
        WorkEvent::GuardAdmitted { .. } => "guard_admitted"@,
        WorkEvent::GuardInvalidated { .. } => "guard_invalidated"@,
        WorkEvent::GuardReservationExpired { .. } => "guard_reservation_expired"@,
        WorkEvent::TethersOutcomeRecorded { .. } => "tethers_outcome_recorded"@,
        WorkEvent::RecoveryCompleted { .. } => "recovery_completed"@,
        WorkEvent::RecoveryReleased { .. } => "recovery_released"@,
        WorkEvent::StructuralProposalApplied { .. } => "structural_proposal_applied"@,
        WorkEvent::AttentionRaised { .. } => "attention_raised"@,
        WorkEvent::AttentionCleared { .. } => "attention_cleared"@,
    }
}

/// The type name under which `event` is logged.
pub fn event_type(event: &WorkEvent) -> (r: &'static str)
    ensures
        r@ == event_type_name(*event),
{
    match event {
        WorkEvent::GoalCreated { .. } => "goal_created",
        WorkEvent::GoalRevised { .. } => "goal_revised",
        WorkEvent::CommitmentCreated { .. } => "commitment_created",
        WorkEvent::CommitmentActivated { .. } => "commitment_activated",
        WorkEvent::CommitmentClaimed { .. } => "commitment_claimed",
        WorkEvent::CommitmentStarted { .. } => "commitment_started",
        WorkEvent::CommitmentWaiting { .. } => "commitment_waiting",
        WorkEvent::CommitmentRecoveryPending { .. } => "commitment_recovery_pending",
        WorkEvent::CommitmentCompletionProposed { .. } => "commitment_completion_proposed",
        WorkEvent::CommitmentCompleted { .. } => "commitment_completed",
        WorkEvent::CommitmentCancelled { .. } => "commitment_cancelled",
        WorkEvent::CommitmentAbandoned { .. } => "commitment_abandoned",
        WorkEvent::HeartbeatAccepted { .. } => "heartbeat_accepted",
        WorkEvent::LeaseExpired { .. } => "lease_expired",
        WorkEvent::GuardIssued { .. } => "guard_issued",
        WorkEvent::GuardAdmitted { .. } => "guard_admitted",
        WorkEvent::GuardInvalidated { .. } => "guard_invalidated",
        WorkEvent::GuardReservationExpired { .. } => "guard_reservation_expired",
        WorkEvent::TethersOutcomeRecorded { .. } => "tethers_outcome_recorded",
        WorkEvent::RecoveryCompleted { .. } => "recovery_completed",
        WorkEvent::RecoveryReleased { .. } => "recovery_released",
        WorkEvent::StructuralProposalApplied { .. } => "structural_proposal_applied",
        WorkEvent::AttentionRaised { .. } => "attention_raised",
        WorkEvent::AttentionCleared { .. } => "attention_cleared",
    }
}

/// The commitment an event is about, when it names one.
pub open spec fn event_commitment(event: WorkEvent) -> Option<CommitmentId> {
    match event {
        WorkEvent::CommitmentCreated { commitment_id, .. } => Some(commitment_id),
        WorkEvent::CommitmentActivated { commitment_id } => Some(commitment_id),
        WorkEvent::CommitmentClaimed { commitment_id, .. } => Some(commitment_id),
        WorkEvent::CommitmentStarted { commitment_id } => Some(commitment_id),
        WorkEvent::CommitmentWaiting { commitment_id, .. } => Some(commitment_id),
        WorkEvent::CommitmentRecoveryPending { commitment_id } => Some(commitment_id),
        WorkEvent::CommitmentCompletionProposed { commitment_id } => Some(commitment_id),
        WorkEvent::CommitmentCompleted { commitment_id } => Some(commitment_id),
        WorkEvent::CommitmentCancelled { commitment_id } => Some(commitment_id),
        WorkEvent::CommitmentAbandoned { commitment_id } => Some(commitment_id),
        WorkEvent::HeartbeatAccepted { commitment_id, .. } => Some(commitment_id),
        WorkEvent::LeaseExpired { commitment_id, .. } => Some(commitment_id),
        WorkEvent::GuardIssued { commitment_id, .. } => Some(commitment_id),
        WorkEvent::GuardAdmitted { commitment_id, .. } => Some(commitment_id),
        WorkEvent::RecoveryCompleted { commitment_id, .. } => Some(commitment_id),
        WorkEvent::RecoveryReleased { commitment_id } => Some(commitment_id),
        WorkEvent::AttentionRaised { commitment_id, .. } => commitment_id,
        _ => None,
    }
}

/// The commitment column of the event log row for `event`.
pub fn event_commitment_id(event: &WorkEvent) -> (r: Option<&CommitmentId>)
    ensures
        match r {
            Some(id) => event_commitment(*event) == Some(*id),
            None => event_commitment(*event) is None,
        },
{
    match event {
        WorkEvent::CommitmentCreated { commitment_id, .. }
        | WorkEvent::CommitmentActivated { commitment_id }
        | WorkEvent::CommitmentClaimed { commitment_id, .. }
        | WorkEvent::CommitmentStarted { commitment_id }
        | WorkEvent::CommitmentWaiting { commitment_id, .. }
        | WorkEvent::CommitmentRecoveryPending { commitment_id }
        | WorkEvent::CommitmentCompletionProposed { commitment_id }
        | WorkEvent::CommitmentCompleted { commitment_id }
        | WorkEvent::CommitmentCancelled { commitment_id }
        | WorkEvent::CommitmentAbandoned { commitment_id }
        | WorkEvent::HeartbeatAccepted { commitment_id, .. }
        | WorkEvent::LeaseExpired { commitment_id, .. }
        | WorkEvent::GuardIssued { commitment_id, .. }
        | WorkEvent::GuardAdmitted { commitment_id, .. }
        | WorkEvent::RecoveryCompleted { commitment_id, .. }
        | WorkEvent::RecoveryReleased { commitment_id } => Some(commitment_id),
        WorkEvent::AttentionRaised { commitment_id, .. } => match commitment_id {
            Some(id) => Some(id),
            None => None,
        },
        _ => None,
    }
}

/// A goal mutation must be recorded by a goal-creation or goal-revision event for that goal.
pub open spec fn goal_event_matches(event: WorkEvent, goal_id: GoalId) -> bool {
    ||| event matches WorkEvent::GoalCreated { goal_id: g, .. } && g@ == goal_id@
    ||| event matches WorkEvent::GoalRevised { goal_id: g, .. } && g@ == goal_id@
}

/// A goal mutation must be recorded by a creation or revision event for the same goal.
pub fn validate_goal_event(event: &WorkEvent, goal_id: &GoalId, operation: &str) -> (r: Result<
    (),
    StoreError,
>)
    ensures
        r is Ok <==> goal_event_matches(*event, *goal_id),
        r matches Err(e) ==> e matches StoreError::InvalidMutation(m) && m@ == operation@
            + " requires a matching GoalCreated or GoalRevised event"@,
{
    let matches_goal = match event {
        WorkEvent::GoalCreated { goal_id: event_goal, .. } => event_goal.same_as(goal_id),
        WorkEvent::GoalRevised { goal_id: event_goal, .. } => event_goal.same_as(goal_id),
        _ => false,
    };
    if matches_goal {
        Ok(())
    } else {
        Err(
            StoreError::InvalidMutation(
                join_text(operation, " requires a matching GoalCreated or GoalRevised event"),
            ),
        )
    }
}

/// A commitment mutation must be recorded by an event about that commitment.
pub open spec fn commitment_event_matches(event: WorkEvent, commitment_id: CommitmentId) -> bool {
    event_commitment(event) matches Some(id) && id@ == commitment_id@
}

/// A commitment mutation must be recorded by an event about the same commitment.
pub fn validate_commitment_event(
    event: &WorkEvent,
    commitment_id: &CommitmentId,
    operation: &str,
) -> (r: Result<(), StoreError>)
    ensures
        r is Ok <==> commitment_event_matches(*event, *commitment_id),
        r matches Err(e) ==> e matches StoreError::InvalidMutation(m) && m@ == operation@
            + " requires an event for commitment "@ + commitment_id@,
{
    let matches_commitment = match event_commitment_id(event) {
        Some(id) => id.same_as(commitment_id),
        None => false,
    };
    if matches_commitment {
        Ok(())
    } else {
        let head = join_text(operation, " requires an event for commitment ");
        Err(StoreError::InvalidMutation(join_text(head.as_str(), commitment_id.as_str())))
    }
}

/// An attention mutation must be recorded by the raising event for that item.
pub open spec fn attention_event_matches(event: WorkEvent, attention_id: AttentionId) -> bool {
    event matches WorkEvent::AttentionRaised { attention_id: a, .. } && a@ == attention_id@
}

/// An attention mutation must be recorded by the raising event for the same item.
pub fn validate_attention_event(event: &WorkEvent, attention_id: &AttentionId) -> (r: Result<
    (),
    StoreError,
>)
    ensures
        r is Ok <==> attention_event_matches(*event, *attention_id),
        r matches Err(e) ==> e matches StoreError::InvalidMutation(m) && m@
            == "attention mutation requires a matching attention event"@,
{
    let matches_attention = match event {
        WorkEvent::AttentionRaised { attention_id: event_id, .. } => event_id.same_as(attention_id),
        _ => false,
    };
    if matches_attention {
        Ok(())
    } else {
        Err(
            StoreError::InvalidMutation(
                "attention mutation requires a matching attention event".to_owned(),
            ),
        )
    }
}

/// The position of an event's kind in the closed event vocabulary.
pub open spec fn event_kind(event: WorkEvent) -> int {
    match event {
        WorkEvent::GoalCreated { .. } => 0,
        WorkEvent::GoalRevised { .. } => 1,
        WorkEvent::CommitmentCreated { .. } => 2,
        WorkEvent::CommitmentActivated { .. } => 3,
        WorkEvent::CommitmentClaimed { .. } => 4,
        WorkEvent::CommitmentStarted { .. } => 5,
        WorkEvent::CommitmentWaiting { .. } => 6,
        WorkEvent::CommitmentRecoveryPending { .. } => 7,
        WorkEvent::CommitmentCompletionProposed { .. } => 8,
        WorkEvent::CommitmentCompleted { .. } => 9,
        WorkEvent::CommitmentCancelled { .. } => 10,
        WorkEvent::CommitmentAbandoned { .. } => 11,
        WorkEvent::HeartbeatAccepted { .. } => 12,
        WorkEvent::LeaseExpired { .. } => 13,
        WorkEvent::GuardIssued { .. } => 14,
        WorkEvent::GuardAdmitted { .. } => 15,
        WorkEvent::GuardInvalidated { .. } => 16,
        WorkEvent::GuardReservationExpired { .. } => 17,
        WorkEvent::TethersOutcomeRecorded { .. } => 18,
        WorkEvent::RecoveryCompleted { .. } => 19,
        WorkEvent::RecoveryReleased { .. } => 20,
        WorkEvent::StructuralProposalApplied { .. } => 21,
        WorkEvent::AttentionRaised { .. } => 22,
        WorkEvent::AttentionCleared { .. } => 23,
    }
}

/// The stable type names of the event log, one per kind of event, in the order of
/// `event_kind`.
pub open spec fn stable_event_type_names() -> Seq<Seq<char>> {
    seq![
        "goal_created"@,
        "goal_revised"@,
        "commitment_created"@,
        "commitment_activated"@,
        "commitment_claimed"@,
        "commitment_started"@,
        "commitment_waiting"@,
        "commitment_recovery_pending"@,
        "commitment_completion_proposed"@,
        "commitment_completed"@,
        "commitment_cancelled"@,
        "commitment_abandoned"@,
        "heartbeat_accepted"@,
        "lease_expired"@,
        "guard_issued"@,
        "guard_admitted"@,
        "guard_invalidated"@,
        "guard_reservation_expired"@,
        "tethers_outcome_recorded"@,
        "recovery_completed"@,
        "recovery_released"@,
        "structural_proposal_applied"@,
        "attention_raised"@,
        "attention_cleared"@,
    ]
}

/// Every event is logged under one of the stable type names, never under a free-form or
/// empty one: the name at the event's own position in the vocabulary.
pub proof fn lemma_event_types_are_stable(event: WorkEvent)
    ensures
        0 <= event_kind(event) < stable_event_type_names().len(),
        stable_event_type_names()[event_kind(event)] == event_type_name(event),
        stable_event_type_names().contains(event_type_name(event)),
        event_type_name(event).len() > 0,
{
    reveal_strlit("goal_created");
    reveal_strlit("goal_revised");
    reveal_strlit("commitment_created");
    reveal_strlit("commitment_activated");
    reveal_strlit("commitment_claimed");
    reveal_strlit("commitment_started");
    reveal_strlit("commitment_waiting");
    reveal_strlit("commitment_recovery_pending");
    reveal_strlit("commitment_completion_proposed");
    reveal_strlit("commitment_completed");
    reveal_strlit("commitment_cancelled");
    reveal_strlit("commitment_abandoned");
    reveal_strlit("heartbeat_accepted");
    reveal_strlit("lease_expired");
    reveal_strlit("guard_issued");
    reveal_strlit("guard_admitted");
    reveal_strlit("guard_invalidated");
    reveal_strlit("guard_reservation_expired");
    reveal_strlit("tethers_outcome_recorded");
    reveal_strlit("recovery_completed");
    reveal_strlit("recovery_released");
    reveal_strlit("structural_proposal_applied");
    reveal_strlit("attention_raised");
    reveal_strlit("attention_cleared");
    let names = stable_event_type_names();
    assert(names[event_kind(event)] == event_type_name(event));
}

/// A short summary of a type name that already tells every logged name apart: its
/// length and two of its characters counted from the end.
spec fn name_fingerprint(name: Seq<char>) -> (int, char, char) {
    (name.len() as int, name[name.len() - 3], name[name.len() - 4])
}

/// Each kind of event is logged under its own type name: two events logged under the
/// same name are of the same kind.
pub proof fn lemma_event_type_names_are_distinct(a: WorkEvent, b: WorkEvent)
    requires
        event_type_name(a) == event_type_name(b),
    ensures
        event_kind(a) == event_kind(b),
{
    reveal_strlit("goal_created");
    reveal_strlit("goal_revised");
    reveal_strlit("commitment_created");
    reveal_strlit("commitment_activated");
    reveal_strlit("commitment_claimed");
    reveal_strlit("commitment_started");
    reveal_strlit("commitment_waiting");
    reveal_strlit("commitment_recovery_pending");
    reveal_strlit("commitment_completion_proposed");
    reveal_strlit("commitment_completed");
    reveal_strlit("commitment_cancelled");
    reveal_strlit("commitment_abandoned");
    reveal_strlit("heartbeat_accepted");
    reveal_strlit("lease_expired");
    reveal_strlit("guard_issued");
    reveal_strlit("guard_admitted");
    reveal_strlit("guard_invalidated");
    reveal_strlit("guard_reservation_expired");
    reveal_strlit("tethers_outcome_recorded");
    reveal_strlit("recovery_completed");
    reveal_strlit("recovery_released");
    reveal_strlit("structural_proposal_applied");
    reveal_strlit("attention_raised");
    reveal_strlit("attention_cleared");
    assert(name_fingerprint(event_type_name(a)) == name_fingerprint(event_type_name(b)));
}

} // verus!
