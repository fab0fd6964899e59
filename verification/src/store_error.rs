//! Errors returned by the persistence boundary.
use crate::error::{domain_error_text, DomainError};
use crate::text::{decimal_digits, decimal_i64, decimal_u64, join_text, signed_decimal};
use vstd::prelude::*;

verus! {

#[verifier::external_type_specification]
#[verifier::external_body]
pub struct ExSqliteError(rusqlite::Error);

#[verifier::external_type_specification]
#[verifier::external_body]
pub struct ExJsonError(serde_json::Error);

/// Errors returned by the synchronous SQLite persistence boundary.
#[derive(Debug)]
pub enum StoreError {
    Domain(DomainError),
    Sqlite(rusqlite::Error),
    Serialization(serde_json::Error),
    InvalidPersistedData(String),
    InvalidMutation(String),
    NotFound { entity: &'static str, id: String },
    VersionConflict { entity: &'static str, id: String, expected: i64, actual: i64 },
    DuplicateImmutableRevision { goal_id: String, revision: u64 },
    UnsupportedSchemaVersion { version: i64 },
    ScopeLocked { scope_key: String, guard_id: String },
    GuardInvalid { guard_id: String, reason: String },
    ClaimMismatch { commitment_id: String, reason: String },
    LeaseExpired { commitment_id: String },
}

impl From<rusqlite::Error> for StoreError {
    fn from(error: rusqlite::Error) -> (r: Self) {
        StoreError::Sqlite(error)
    }
}

impl vstd::std_specs::convert::FromSpecImpl<rusqlite::Error> for StoreError {
    open spec fn obeys_from_spec() -> bool {
        true
    }

    open spec fn from_spec(error: rusqlite::Error) -> Self {
        StoreError::Sqlite(error)
    }
}

impl From<serde_json::Error> for StoreError {
    fn from(error: serde_json::Error) -> (r: Self) {
        StoreError::Serialization(error)
    }
}

impl vstd::std_specs::convert::FromSpecImpl<serde_json::Error> for StoreError {
    open spec fn obeys_from_spec() -> bool {
        true
    }

    open spec fn from_spec(error: serde_json::Error) -> Self {
        StoreError::Serialization(error)
    }
}

impl From<DomainError> for StoreError {
    fn from(error: DomainError) -> (r: Self) {
        StoreError::Domain(error)
    }
}

impl vstd::std_specs::convert::FromSpecImpl<DomainError> for StoreError {
    open spec fn obeys_from_spec() -> bool {
        true
    }

    open spec fn from_spec(error: DomainError) -> Self {
        StoreError::Domain(error)
    }
}

/// What `<str as Debug>::fmt` writes for a text: the text in double quotes, with
/// quotes, backslashes and unprintable characters escaped.
pub uninterp spec fn quoted(text: Seq<char>) -> Seq<char>;

/// `format!("{text:?}")` for a text; the result is `quoted(text@)`.
#[verifier::external_body]
pub(crate) fn debug_str(text: &str) -> (r: String)
    ensures
        r@ == quoted(text@),
{
    format!("{text:?}")
}

/// `format!("{error}")` for an SQLite error. Nothing is stated of the text that
/// `rusqlite::Error`'s `Display` writes.
#[verifier::external_body]
fn sqlite_error_text(error: &rusqlite::Error) -> String {
    format!("{error}")
}

/// `format!("{error}")` for a JSON error. Nothing is stated of the text that
/// `serde_json::Error`'s `Display` writes.
#[verifier::external_body]
fn json_error_text(error: &serde_json::Error) -> String {
    format!("{error}")
}

/// The description of a store error, for every variant that wraps no other error.
pub open spec fn store_error_text(e: StoreError) -> Seq<char> {
    match e {
        StoreError::Domain(_) => "domain error: "@,
        StoreError::Sqlite(_) => "SQLite error: "@,
        StoreError::Serialization(_) => "serialization error: "@,
        StoreError::InvalidPersistedData(m) => "invalid persisted data: "@ + m@,
        StoreError::InvalidMutation(m) => "invalid mutation: "@ + m@,
        StoreError::NotFound { entity, id } => entity@ + " "@ + id@ + " was not found"@,
        StoreError::VersionConflict { entity, id, expected, actual } => entity@ + " "@ + id@
            + " has version "@ + signed_decimal(actual as int) + ", expected "@ + signed_decimal(
            expected as int,
        ),
        StoreError::DuplicateImmutableRevision { goal_id, revision } => "goal "@ + goal_id@
            + " revision "@ + decimal_digits(revision as nat) + " already exists"@,
        StoreError::UnsupportedSchemaVersion { version } => "schema version "@ + signed_decimal(
            version as int,
        ) + " is newer than this store supports"@,
        StoreError::ScopeLocked { scope_key, guard_id } => "scope "@ + quoted(scope_key@)
            + " is locked by guard "@ + guard_id@,
        StoreError::GuardInvalid { guard_id, reason } => "guard "@ + guard_id@
            + " is not admissible: "@ + reason@,
        StoreError::ClaimMismatch { commitment_id, reason } => "commitment "@ + commitment_id@
            + " claim mismatch: "@ + reason@,
        StoreError::LeaseExpired { commitment_id } => "commitment "@ + commitment_id@
            + " claim lease has expired"@,
    }
}

impl StoreError {
    /// The error's description, as its `Display` writes it. A wrapped domain, SQLite or
    /// JSON error is described after the fixed prefix shown by `store_error_text`.
    pub fn message(&self) -> (r: String)
        ensures
            match *self {
                StoreError::Domain(e) => r@ == "domain error: "@ + domain_error_text(e),
                StoreError::Sqlite(_) | StoreError::Serialization(_) => store_error_text(
                    *self,
                ).is_prefix_of(r@),
                _ => r@ == store_error_text(*self),
            },
    {
        match self {
            StoreError::Domain(error) => join_text("domain error: ", error.message().as_str()),
            StoreError::Sqlite(error) => {
                let r = join_text("SQLite error: ", sqlite_error_text(error).as_str());
                assert(store_error_text(*self).is_prefix_of(r@)) by {
                    assert(r@.subrange(0, store_error_text(*self).len() as int) =~= store_error_text(*self));
                }
                r
            },
            StoreError::Serialization(error) => {
                let r = join_text("serialization error: ", json_error_text(error).as_str());
                assert(store_error_text(*self).is_prefix_of(r@)) by {
                    assert(r@.subrange(0, store_error_text(*self).len() as int) =~= store_error_text(*self));
                }
                r
            },
            StoreError::InvalidPersistedData(message) => join_text(
                "invalid persisted data: ",
                message.as_str(),
            ),
            StoreError::InvalidMutation(message) => join_text("invalid mutation: ", message.as_str()),
            StoreError::NotFound { entity, id } => {
                let text = join_text(entity, " ");
                let text = join_text(text.as_str(), id.as_str());
                join_text(text.as_str(), " was not found")
            },
            StoreError::VersionConflict { entity, id, expected, actual } => {
                let text = join_text(entity, " ");
                let text = join_text(text.as_str(), id.as_str());
                let text = join_text(text.as_str(), " has version ");
                let text = join_text(text.as_str(), decimal_i64(*actual).as_str());
                let text = join_text(text.as_str(), ", expected ");
                join_text(text.as_str(), decimal_i64(*expected).as_str())
            },
            StoreError::DuplicateImmutableRevision { goal_id, revision } => {
                let text = join_text("goal ", goal_id.as_str());
                let text = join_text(text.as_str(), " revision ");
                let text = join_text(text.as_str(), decimal_u64(*revision).as_str());
                join_text(text.as_str(), " already exists")
            },
            StoreError::UnsupportedSchemaVersion { version } => {
                let text = join_text("schema version ", decimal_i64(*version).as_str());
                join_text(text.as_str(), " is newer than this store supports")
            },
            StoreError::ScopeLocked { scope_key, guard_id } => {
                let text = join_text("scope ", debug_str(scope_key.as_str()).as_str());
                let text = join_text(text.as_str(), " is locked by guard ");
                join_text(text.as_str(), guard_id.as_str())
            },
            StoreError::GuardInvalid { guard_id, reason } => {
                let text = join_text("guard ", guard_id.as_str());
                let text = join_text(text.as_str(), " is not admissible: ");
                join_text(text.as_str(), reason.as_str())
            },
            StoreError::ClaimMismatch { commitment_id, reason } => {
                let text = join_text("commitment ", commitment_id.as_str());
                let text = join_text(text.as_str(), " claim mismatch: ");
                join_text(text.as_str(), reason.as_str())
            },
            StoreError::LeaseExpired { commitment_id } => {
                let text = join_text("commitment ", commitment_id.as_str());
                join_text(text.as_str(), " claim lease has expired")
            },
        }
    }
}

} // verus!
