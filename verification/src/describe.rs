//! The diagnostic text of states, in the form their derived `Debug` writes it.
use crate::domain::{
    CommitmentState, CommitmentStateView, TethersOutcome, TethersOutcomeView, WaitingReason,
    WaitingReasonView,
};
use crate::guards::{GuardState, GuardStateView};
use crate::store_error::{debug_str, quoted};
use crate::text::join_text;
use vstd::prelude::*;

verus! {

/// An identifier of type `name` holding `text`: `Name("text")`.
pub open spec fn id_text(name: Seq<char>, text: Seq<char>) -> Seq<char> {
    name + "("@ + quoted(text) + ")"@
}

/// A one-field tuple variant: `Name(inner)`.
pub open spec fn wrapped(name: Seq<char>, inner: Seq<char>) -> Seq<char> {
    name + "("@ + inner + ")"@
}

/// The text of a waiting reason.
pub open spec fn reason_description(v: WaitingReasonView) -> Seq<char> {
    match v {
        WaitingReasonView::Prerequisite(t) => wrapped("Prerequisite"@, id_text("CommitmentId"@, t)),
        WaitingReasonView::Authority(t) => wrapped("Authority"@, id_text("TethersActionRef"@, t)),
        WaitingReasonView::HumanDecision(t) => wrapped(
            "HumanDecision"@,
            id_text("HumanDecisionRef"@, t),
        ),
        WaitingReasonView::Verification(t) => wrapped(
            "Verification"@,
            id_text("TethersContractRef"@, t),
        ),
        WaitingReasonView::UncertainAction(t) => wrapped(
            "UncertainAction"@,
            id_text("TethersActionRef"@, t),
        ),
        WaitingReasonView::External(t) => wrapped("External"@, quoted(t)),
    }
}

/// The text of a commitment state.
pub open spec fn state_description(v: CommitmentStateView) -> Seq<char> {
    match v {
        CommitmentStateView::Proposed => "Proposed"@,
        CommitmentStateView::Ready => "Ready"@,
        CommitmentStateView::Claimed => "Claimed"@,
        CommitmentStateView::Working => "Working"@,
        CommitmentStateView::Waiting(reason) => wrapped("Waiting"@, reason_description(reason)),
        CommitmentStateView::RecoveryPending => "RecoveryPending"@,
        CommitmentStateView::CompletionProposed => "CompletionProposed"@,
        CommitmentStateView::Completed => "Completed"@,
        CommitmentStateView::Cancelled => "Cancelled"@,
        CommitmentStateView::Abandoned => "Abandoned"@,
    }
}

/// A struct variant with one action reference: `Name { action_ref: TethersActionRef("a") }`.
pub open spec fn action_variant(name: Seq<char>, action: Seq<char>) -> Seq<char> {
    name + " { action_ref: "@ + id_text("TethersActionRef"@, action) + " }"@
}

/// The text of an outcome.
pub open spec fn outcome_description(v: TethersOutcomeView) -> Seq<char> {
    match v {
        TethersOutcomeView::Succeeded(t) => action_variant("Succeeded"@, t),
        TethersOutcomeView::Failed(t) => action_variant("Failed"@, t),
        TethersOutcomeView::Uncertain(t) => action_variant("Uncertain"@, t),
    }
}

/// The text of a guard's lifecycle state.
pub open spec fn guard_state_description(v: GuardStateView) -> Seq<char> {
    match v {
        GuardStateView::Issued => "Issued"@,
        GuardStateView::Admitted(a) => action_variant("Admitted"@, a),
        GuardStateView::Resolved(a, o) => "Resolved { action_ref: "@ + id_text(
            "TethersActionRef"@,
            a,
        ) + ", outcome: "@ + outcome_description(o) + " }"@,
        GuardStateView::Uncertain(a) => action_variant("Uncertain"@, a),
        GuardStateView::Invalidated => "Invalidated"@,
    }
}

fn id_text_of(name: &str, text: &str) -> (r: String)
    ensures
        r@ == id_text(name@, text@),
{
    let head = join_text(name, "(");
    let shown = debug_str(text);
    let body = join_text(head.as_str(), shown.as_str());
    join_text(body.as_str(), ")")
}

fn wrapped_text(name: &str, inner: &str) -> (r: String)
    ensures
        r@ == wrapped(name@, inner@),
{
    let head = join_text(name, "(");
    let body = join_text(head.as_str(), inner);
    join_text(body.as_str(), ")")
}

fn action_variant_text(name: &str, action: &str) -> (r: String)
    ensures
        r@ == action_variant(name@, action@),
{
    let head = join_text(name, " { action_ref: ");
    let body = join_text(head.as_str(), id_text_of("TethersActionRef", action).as_str());
    join_text(body.as_str(), " }")
}

/// The text of `reason`, as `format!("{reason:?}")` writes it.
pub fn describe_reason(reason: &WaitingReason) -> (r: String)
    ensures
        r@ == reason_description(reason@),
{
    match reason {
        WaitingReason::Prerequisite(id) => wrapped_text(
            "Prerequisite",
            id_text_of("CommitmentId", id.as_str()).as_str(),
        ),
        WaitingReason::Authority(id) => wrapped_text(
            "Authority",
            id_text_of("TethersActionRef", id.as_str()).as_str(),
        ),
        WaitingReason::HumanDecision(id) => wrapped_text(
            "HumanDecision",
            id_text_of("HumanDecisionRef", id.as_str()).as_str(),
        ),
        WaitingReason::Verification(id) => wrapped_text(
            "Verification",
            id_text_of("TethersContractRef", id.as_str()).as_str(),
        ),
        WaitingReason::UncertainAction(id) => wrapped_text(
            "UncertainAction",
            id_text_of("TethersActionRef", id.as_str()).as_str(),
        ),
        WaitingReason::External(text) => wrapped_text(
            "External",
            debug_str(text.as_str()).as_str(),
        ),
    }
}

/// The text of `state`, as `format!("{state:?}")` writes it.
pub fn describe_state(state: &CommitmentState) -> (r: String)
    ensures
        r@ == state_description(state@),
{
    match state {
        CommitmentState::Proposed => "Proposed".to_owned(),
        CommitmentState::Ready => "Ready".to_owned(),
        CommitmentState::Claimed => "Claimed".to_owned(),
        CommitmentState::Working => "Working".to_owned(),
        CommitmentState::Waiting(reason) => wrapped_text(
            "Waiting",
            describe_reason(reason).as_str(),
        ),
        CommitmentState::RecoveryPending => "RecoveryPending".to_owned(),
        CommitmentState::CompletionProposed => "CompletionProposed".to_owned(),
        CommitmentState::Completed => "Completed".to_owned(),
        CommitmentState::Cancelled => "Cancelled".to_owned(),
        CommitmentState::Abandoned => "Abandoned".to_owned(),
    }
}

/// The text of `outcome`, as `format!("{outcome:?}")` writes it.
pub fn describe_outcome(outcome: &TethersOutcome) -> (r: String)
    ensures
        r@ == outcome_description(outcome@),
{
    match outcome {
        TethersOutcome::Succeeded { action_ref } => action_variant_text(
            "Succeeded",
            action_ref.as_str(),
        ),
        TethersOutcome::Failed { action_ref } => action_variant_text("Failed", action_ref.as_str()),
        TethersOutcome::Uncertain { action_ref } => action_variant_text(
            "Uncertain",
            action_ref.as_str(),
        ),
    }
}

/// The text of a guard's lifecycle `state`, as `format!("{state:?}")` writes it.
pub fn describe_guard_state(state: &GuardState) -> (r: String)
    ensures
        r@ == guard_state_description(state@),
{
    match state {
        GuardState::Issued => "Issued".to_owned(),
        GuardState::Admitted { action_ref } => action_variant_text("Admitted", action_ref.as_str()),
        GuardState::Resolved { action_ref, outcome } => {
            let head = join_text(
                "Resolved { action_ref: ",
                id_text_of("TethersActionRef", action_ref.as_str()).as_str(),
            );
            let head = join_text(head.as_str(), ", outcome: ");
            let body = join_text(head.as_str(), describe_outcome(outcome).as_str());
            join_text(body.as_str(), " }")
        },
        GuardState::Uncertain { action_ref } => action_variant_text(
            "Uncertain",
            action_ref.as_str(),
        ),
        GuardState::Invalidated => "Invalidated".to_owned(),
    }
}

} // verus!
