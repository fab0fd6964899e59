//! Opaque textual identifiers. Each accepts any text that is not blank and is
//! compared by exact equality of its characters.
use crate::error::DomainError;
use crate::text::{is_blank, str_is_blank};
use vstd::prelude::*;

verus! {

/// Identifiers built from text: any text that is not blank.
pub trait TextId: Sized + View<V = Seq<char>> {
    fn from_text(value: &str) -> (r: Result<Self, DomainError>)
        ensures
            match r {
                Ok(id) => !is_blank(value@) && id@ == value@,
                Err(_) => is_blank(value@),
            },
    ;
}

/// Identifier of a goal.
#[derive(Debug, PartialEq, Eq, Hash, PartialOrd, Ord)]
pub struct GoalId(String);

impl View for GoalId {
    type V = Seq<char>;

    closed spec fn view(&self) -> Seq<char> {
        self.0@
    }
}

impl Clone for GoalId {
    fn clone(&self) -> (r: Self)
        ensures
            r == *self,
    {
        proof {
            use_type_invariant(self);
        }
        GoalId(self.0.clone())
    }
}

impl GoalId {
    #[verifier::type_invariant]
    spec fn text_is_valid(self) -> bool {
        !is_blank(self.0@)
    }

    /// Accepts `value` unless it is blank.
    pub fn try_new(value: &str) -> (r: Result<Self, DomainError>)
        ensures
            match r {
                Ok(id) => !is_blank(value@) && id@ == value@,
                Err(e) => is_blank(value@) && e == (DomainError::InvalidIdentifier { kind: "goal" }),
            },
    {
        if str_is_blank(value) {
            return Err(DomainError::InvalidIdentifier { kind: "goal" });
        }
        Ok(GoalId(value.to_owned()))
    }

    /// The identifier's text, which is never blank.
    pub fn as_str(&self) -> (r: &str)
        ensures
            r@ == self@,
            !is_blank(self@),
    {
        proof {
            use_type_invariant(self);
        }
        self.0.as_str()
    }

    /// Exact equality of the two identifiers' text.
    pub fn same_as(&self, other: &Self) -> (r: bool)
        ensures
            r == (self@ == other@),
    {
        self.0 == other.0
    }
}

/// Identifier of a commitment.
#[derive(Debug, PartialEq, Eq, Hash, PartialOrd, Ord)]
pub struct CommitmentId(String);

impl View for CommitmentId {
    type V = Seq<char>;

    closed spec fn view(&self) -> Seq<char> {
        self.0@
    }
}

impl Clone for CommitmentId {
    fn clone(&self) -> (r: Self)
        ensures
            r == *self,
    {
        proof {
            use_type_invariant(self);
        }
        CommitmentId(self.0.clone())
    }
}

impl CommitmentId {
    #[verifier::type_invariant]
    spec fn text_is_valid(self) -> bool {
        !is_blank(self.0@)
    }

    /// Accepts `value` unless it is blank.
    pub fn try_new(value: &str) -> (r: Result<Self, DomainError>)
        ensures
            match r {
                Ok(id) => !is_blank(value@) && id@ == value@,
                Err(e) => is_blank(value@) && e == (DomainError::InvalidIdentifier { kind: "commitment" }),
            },
    {
        if str_is_blank(value) {
            return Err(DomainError::InvalidIdentifier { kind: "commitment" });
        }
        Ok(CommitmentId(value.to_owned()))
    }

    /// The identifier's text, which is never blank.
    pub fn as_str(&self) -> (r: &str)
        ensures
            r@ == self@,
            !is_blank(self@),
    {
        proof {
            use_type_invariant(self);
        }
        self.0.as_str()
    }

    /// Exact equality of the two identifiers' text.
    pub fn same_as(&self, other: &Self) -> (r: bool)
        ensures
            r == (self@ == other@),
    {
        self.0 == other.0
    }
}

/// Identifier of a worker.
#[derive(Debug, PartialEq, Eq, Hash, PartialOrd, Ord)]
pub struct WorkerId(String);

impl View for WorkerId {
    type V = Seq<char>;

    closed spec fn view(&self) -> Seq<char> {
        self.0@
    }
}

impl Clone for WorkerId {
    fn clone(&self) -> (r: Self)
        ensures
            r == *self,
    {
        proof {
            use_type_invariant(self);
        }
        WorkerId(self.0.clone())
    }
}

impl WorkerId {
    #[verifier::type_invariant]
    spec fn text_is_valid(self) -> bool {
        !is_blank(self.0@)
    }

    /// Accepts `value` unless it is blank.
    pub fn try_new(value: &str) -> (r: Result<Self, DomainError>)
        ensures
            match r {
                Ok(id) => !is_blank(value@) && id@ == value@,
                Err(e) => is_blank(value@) && e == (DomainError::InvalidIdentifier { kind: "worker" }),
            },
    {
        if str_is_blank(value) {
            return Err(DomainError::InvalidIdentifier { kind: "worker" });
        }
        Ok(WorkerId(value.to_owned()))
    }

    /// The identifier's text, which is never blank.
    pub fn as_str(&self) -> (r: &str)
        ensures
            r@ == self@,
            !is_blank(self@),
    {
        proof {
            use_type_invariant(self);
        }
        self.0.as_str()
    }

    /// Exact equality of the two identifiers' text.
    pub fn same_as(&self, other: &Self) -> (r: bool)
        ensures
            r == (self@ == other@),
    {
        self.0 == other.0
    }
}

/// Identifier of a Tethers action reference.
#[derive(Debug, PartialEq, Eq, Hash, PartialOrd, Ord)]
pub struct TethersActionRef(String);

impl View for TethersActionRef {
    type V = Seq<char>;

    closed spec fn view(&self) -> Seq<char> {
        self.0@
    }
}

impl Clone for TethersActionRef {
    fn clone(&self) -> (r: Self)
        ensures
            r == *self,
    {
        proof {
            use_type_invariant(self);
        }
        TethersActionRef(self.0.clone())
    }
}

impl TethersActionRef {
    #[verifier::type_invariant]
    spec fn text_is_valid(self) -> bool {
        !is_blank(self.0@)
    }

    /// Accepts `value` unless it is blank.
    pub fn try_new(value: &str) -> (r: Result<Self, DomainError>)
        ensures
            match r {
                Ok(id) => !is_blank(value@) && id@ == value@,
                Err(e) => is_blank(value@) && e == (DomainError::InvalidIdentifier { kind: "Tethers action" }),
            },
    {
        if str_is_blank(value) {
            return Err(DomainError::InvalidIdentifier { kind: "Tethers action" });
        }
        Ok(TethersActionRef(value.to_owned()))
    }

    /// The identifier's text, which is never blank.
    pub fn as_str(&self) -> (r: &str)
        ensures
            r@ == self@,
            !is_blank(self@),
    {
        proof {
            use_type_invariant(self);
        }
        self.0.as_str()
    }

    /// Exact equality of the two identifiers' text.
    pub fn same_as(&self, other: &Self) -> (r: bool)
        ensures
            r == (self@ == other@),
    {
        self.0 == other.0
    }
}

/// Identifier of a Tethers contract reference.
#[derive(Debug, PartialEq, Eq, Hash, PartialOrd, Ord)]
pub struct TethersContractRef(String);

impl View for TethersContractRef {
    type V = Seq<char>;

    closed spec fn view(&self) -> Seq<char> {
        self.0@
    }
}

impl Clone for TethersContractRef {
    fn clone(&self) -> (r: Self)
        ensures
            r == *self,
    {
        proof {
            use_type_invariant(self);
        }
        TethersContractRef(self.0.clone())
    }
}

impl TethersContractRef {
    #[verifier::type_invariant]
    spec fn text_is_valid(self) -> bool {
        !is_blank(self.0@)
    }

    /// Accepts `value` unless it is blank.
    pub fn try_new(value: &str) -> (r: Result<Self, DomainError>)
        ensures
            match r {
                Ok(id) => !is_blank(value@) && id@ == value@,
                Err(e) => is_blank(value@) && e == (DomainError::InvalidIdentifier { kind: "Tethers contract" }),
            },
    {
        if str_is_blank(value) {
            return Err(DomainError::InvalidIdentifier { kind: "Tethers contract" });
        }
        Ok(TethersContractRef(value.to_owned()))
    }

    /// The identifier's text, which is never blank.
    pub fn as_str(&self) -> (r: &str)
        ensures
            r@ == self@,
            !is_blank(self@),
    {
        proof {
            use_type_invariant(self);
        }
        self.0.as_str()
    }

    /// Exact equality of the two identifiers' text.
    pub fn same_as(&self, other: &Self) -> (r: bool)
        ensures
            r == (self@ == other@),
    {
        self.0 == other.0
    }
}

/// Identifier of a human decision reference.
#[derive(Debug, PartialEq, Eq, Hash, PartialOrd, Ord)]
pub struct HumanDecisionRef(String);

impl View for HumanDecisionRef {
    type V = Seq<char>;

    closed spec fn view(&self) -> Seq<char> {
        self.0@
    }
}

impl Clone for HumanDecisionRef {
    fn clone(&self) -> (r: Self)
        ensures
            r == *self,
    {
        proof {
            use_type_invariant(self);
        }
        HumanDecisionRef(self.0.clone())
    }
}

impl HumanDecisionRef {
    #[verifier::type_invariant]
    spec fn text_is_valid(self) -> bool {
        !is_blank(self.0@)
    }

    /// Accepts `value` unless it is blank.
    pub fn try_new(value: &str) -> (r: Result<Self, DomainError>)
        ensures
            match r {
                Ok(id) => !is_blank(value@) && id@ == value@,
                Err(e) => is_blank(value@) && e == (DomainError::InvalidIdentifier { kind: "human decision" }),
            },
    {
        if str_is_blank(value) {
            return Err(DomainError::InvalidIdentifier { kind: "human decision" });
        }
        Ok(HumanDecisionRef(value.to_owned()))
    }

    /// The identifier's text, which is never blank.
    pub fn as_str(&self) -> (r: &str)
        ensures
            r@ == self@,
            !is_blank(self@),
    {
        proof {
            use_type_invariant(self);
        }
        self.0.as_str()
    }

    /// Exact equality of the two identifiers' text.
    pub fn same_as(&self, other: &Self) -> (r: bool)
        ensures
            r == (self@ == other@),
    {
        self.0 == other.0
    }
}

/// Identifier of a acceptance reference.
#[derive(Debug, PartialEq, Eq, Hash, PartialOrd, Ord)]
pub struct AcceptanceRef(String);

impl View for AcceptanceRef {
    type V = Seq<char>;

    closed spec fn view(&self) -> Seq<char> {
        self.0@
    }
}

impl Clone for AcceptanceRef {
    fn clone(&self) -> (r: Self)
        ensures
            r == *self,
    {
        proof {
            use_type_invariant(self);
        }
        AcceptanceRef(self.0.clone())
    }
}

impl AcceptanceRef {
    #[verifier::type_invariant]
    spec fn text_is_valid(self) -> bool {
        !is_blank(self.0@)
    }

    /// Accepts `value` unless it is blank.
    pub fn try_new(value: &str) -> (r: Result<Self, DomainError>)
        ensures
            match r {
                Ok(id) => !is_blank(value@) && id@ == value@,
                Err(e) => is_blank(value@) && e == (DomainError::InvalidIdentifier { kind: "acceptance" }),
            },
    {
        if str_is_blank(value) {
            return Err(DomainError::InvalidIdentifier { kind: "acceptance" });
        }
        Ok(AcceptanceRef(value.to_owned()))
    }

    /// The identifier's text, which is never blank.
    pub fn as_str(&self) -> (r: &str)
        ensures
            r@ == self@,
            !is_blank(self@),
    {
        proof {
            use_type_invariant(self);
        }
        self.0.as_str()
    }

    /// Exact equality of the two identifiers' text.
    pub fn same_as(&self, other: &Self) -> (r: bool)
        ensures
            r == (self@ == other@),
    {
        self.0 == other.0
    }
}

/// Identifier of a attention.
#[derive(Debug, PartialEq, Eq, Hash, PartialOrd, Ord)]
pub struct AttentionId(String);

impl View for AttentionId {
    type V = Seq<char>;

    closed spec fn view(&self) -> Seq<char> {
        self.0@
    }
}

impl Clone for AttentionId {
    fn clone(&self) -> (r: Self)
        ensures
            r == *self,
    {
        proof {
            use_type_invariant(self);
        }
        AttentionId(self.0.clone())
    }
}

impl AttentionId {
    #[verifier::type_invariant]
    spec fn text_is_valid(self) -> bool {
        !is_blank(self.0@)
    }

    /// Accepts `value` unless it is blank.
    pub fn try_new(value: &str) -> (r: Result<Self, DomainError>)
        ensures
            match r {
                Ok(id) => !is_blank(value@) && id@ == value@,
                Err(e) => is_blank(value@) && e == (DomainError::InvalidIdentifier { kind: "attention" }),
            },
    {
        if str_is_blank(value) {
            return Err(DomainError::InvalidIdentifier { kind: "attention" });
        }
        Ok(AttentionId(value.to_owned()))
    }

    /// The identifier's text, which is never blank.
    pub fn as_str(&self) -> (r: &str)
        ensures
            r@ == self@,
            !is_blank(self@),
    {
        proof {
            use_type_invariant(self);
        }
        self.0.as_str()
    }

    /// Exact equality of the two identifiers' text.
    pub fn same_as(&self, other: &Self) -> (r: bool)
        ensures
            r == (self@ == other@),
    {
        self.0 == other.0
    }
}

/// Identifier of a guard.
#[derive(Debug, PartialEq, Eq, Hash, PartialOrd, Ord)]
pub struct GuardId(String);

impl View for GuardId {
    type V = Seq<char>;

    closed spec fn view(&self) -> Seq<char> {
        self.0@
    }
}

impl Clone for GuardId {
    fn clone(&self) -> (r: Self)
        ensures
            r == *self,
    {
        proof {
            use_type_invariant(self);
        }
        GuardId(self.0.clone())
    }
}

impl GuardId {
    #[verifier::type_invariant]
    spec fn text_is_valid(self) -> bool {
        !is_blank(self.0@)
    }

    /// Accepts `value` unless it is blank.
    pub fn try_new(value: &str) -> (r: Result<Self, DomainError>)
        ensures
            match r {
                Ok(id) => !is_blank(value@) && id@ == value@,
                Err(e) => is_blank(value@) && e == (DomainError::InvalidIdentifier { kind: "guard" }),
            },
    {
        if str_is_blank(value) {
            return Err(DomainError::InvalidIdentifier { kind: "guard" });
        }
        Ok(GuardId(value.to_owned()))
    }

    /// The identifier's text, which is never blank.
    pub fn as_str(&self) -> (r: &str)
        ensures
            r@ == self@,
            !is_blank(self@),
    {
        proof {
            use_type_invariant(self);
        }
        self.0.as_str()
    }

    /// Exact equality of the two identifiers' text.
    pub fn same_as(&self, other: &Self) -> (r: bool)
        ensures
            r == (self@ == other@),
    {
        self.0 == other.0
    }
}

/// An opaque Tethers-derived scope key, compared exactly; Resolve does not interpret
/// paths, prefixes or resource meaning.
#[derive(Debug, PartialEq, Eq, Hash, PartialOrd, Ord)]
pub struct ScopeKey(String);

impl View for ScopeKey {
    type V = Seq<char>;

    closed spec fn view(&self) -> Seq<char> {
        self.0@
    }
}

impl Clone for ScopeKey {
    fn clone(&self) -> (r: Self)
        ensures
            r == *self,
    {
        proof {
            use_type_invariant(self);
        }
        ScopeKey(self.0.clone())
    }
}

impl ScopeKey {
    #[verifier::type_invariant]
    spec fn text_is_valid(self) -> bool {
        !is_blank(self.0@)
    }

    /// Accepts `value` unless it is blank.
    pub fn try_new(value: &str) -> (r: Result<Self, DomainError>)
        ensures
            match r {
                Ok(id) => !is_blank(value@) && id@ == value@,
                Err(e) => is_blank(value@) && e == (DomainError::InvalidIdentifier { kind: "scope" }),
            },
    {
        if str_is_blank(value) {
            return Err(DomainError::InvalidIdentifier { kind: "scope" });
        }
        Ok(ScopeKey(value.to_owned()))
    }

    /// The identifier's text, which is never blank.
    pub fn as_str(&self) -> (r: &str)
        ensures
            r@ == self@,
            !is_blank(self@),
    {
        proof {
            use_type_invariant(self);
        }
        self.0.as_str()
    }

    /// Exact equality of the two identifiers' text.
    pub fn same_as(&self, other: &Self) -> (r: bool)
        ensures
            r == (self@ == other@),
    {
        self.0 == other.0
    }
}

impl TextId for GoalId {
    fn from_text(value: &str) -> (r: Result<Self, DomainError>) {
        GoalId::try_new(value)
    }
}

impl TextId for CommitmentId {
    fn from_text(value: &str) -> (r: Result<Self, DomainError>) {
        CommitmentId::try_new(value)
    }
}

impl TextId for WorkerId {
    fn from_text(value: &str) -> (r: Result<Self, DomainError>) {
        WorkerId::try_new(value)
    }
}

impl TextId for TethersActionRef {
    fn from_text(value: &str) -> (r: Result<Self, DomainError>) {
        TethersActionRef::try_new(value)
    }
}

impl TextId for TethersContractRef {
    fn from_text(value: &str) -> (r: Result<Self, DomainError>) {
        TethersContractRef::try_new(value)
    }
}

impl TextId for HumanDecisionRef {
    fn from_text(value: &str) -> (r: Result<Self, DomainError>) {
        HumanDecisionRef::try_new(value)
    }
}

impl TextId for AcceptanceRef {
    fn from_text(value: &str) -> (r: Result<Self, DomainError>) {
        AcceptanceRef::try_new(value)
    }
}

impl TextId for AttentionId {
    fn from_text(value: &str) -> (r: Result<Self, DomainError>) {
        AttentionId::try_new(value)
    }
}

impl TextId for GuardId {
    fn from_text(value: &str) -> (r: Result<Self, DomainError>) {
        GuardId::try_new(value)
    }
}

impl TextId for ScopeKey {
    fn from_text(value: &str) -> (r: Result<Self, DomainError>) {
        ScopeKey::try_new(value)
    }
}

} // verus!
