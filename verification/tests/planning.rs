use resolve::planning::{validate_acyclic, validate_proposal_shape};
use resolve::{
    ClaimEpoch, CommitmentId, DomainError, NewCommitment, Prerequisite, StructuralProposal,
    TethersContractRef,
};

fn commitment_id(value: &str) -> CommitmentId {
    CommitmentId::try_new(value).expect("test identifier is valid")
}

fn child(value: &str, prerequisites: Vec<Prerequisite>) -> NewCommitment {
    NewCommitment::new(commitment_id(value), value, prerequisites, Vec::new())
        .expect("test child is valid")
}

#[test]
fn acyclic_graph_is_accepted_deterministically() {
    let graph = vec![
        (commitment_id("a"), vec![commitment_id("b")]),
        (commitment_id("b"), Vec::new()),
    ];
    assert!(validate_acyclic(&graph).is_ok());
}

#[test]
fn direct_and_indirect_cycles_are_rejected() {
    let direct = vec![(commitment_id("a"), vec![commitment_id("a")])];
    assert_eq!(
        validate_acyclic(&direct).expect_err("self dependency is a cycle"),
        DomainError::DependencyCycle
    );

    let indirect = vec![
        (commitment_id("a"), vec![commitment_id("b")]),
        (commitment_id("b"), vec![commitment_id("c")]),
        (commitment_id("c"), vec![commitment_id("a")]),
    ];
    assert_eq!(
        validate_acyclic(&indirect).expect_err("indirect cycle is rejected"),
        DomainError::DependencyCycle
    );
}

#[test]
fn proposal_shape_rejects_empty_duplicate_and_unknown_terminal() {
    let target = commitment_id("target");
    let empty = StructuralProposal::Decompose {
        target: target.clone(),
        epoch: ClaimEpoch::initial(),
        children: Vec::new(),
        replacement_terminal_id: commitment_id("child"),
    };
    assert!(matches!(
        validate_proposal_shape(&empty),
        Err(DomainError::InvalidStructuralProposal { .. })
    ));

    let duplicate = StructuralProposal::Decompose {
        target: target.clone(),
        epoch: ClaimEpoch::initial(),
        children: vec![child("child", Vec::new()), child("child", Vec::new())],
        replacement_terminal_id: commitment_id("child"),
    };
    assert!(matches!(
        validate_proposal_shape(&duplicate),
        Err(DomainError::InvalidStructuralProposal { .. })
    ));

    let unknown = StructuralProposal::Decompose {
        target,
        epoch: ClaimEpoch::initial(),
        children: vec![child("child", Vec::new())],
        replacement_terminal_id: commitment_id("missing"),
    };
    assert!(matches!(
        validate_proposal_shape(&unknown),
        Err(DomainError::InvalidStructuralProposal { .. })
    ));
}

#[test]
fn typed_non_commitment_prerequisite_has_no_graph_edge() {
    let prerequisite = Prerequisite::TethersVerification(
        TethersContractRef::try_new("contract-1").expect("contract is valid"),
    );
    assert!(!matches!(prerequisite, Prerequisite::Commitment(_)));
}

#[test]
fn empty_abandon_rationale_is_rejected() {
    let proposal = StructuralProposal::Abandon {
        target: commitment_id("target"),
        epoch: ClaimEpoch::initial(),
        rationale: " \n ".to_owned(),
    };
    assert!(matches!(
        validate_proposal_shape(&proposal),
        Err(DomainError::InvalidStructuralProposal { .. })
    ));
}
