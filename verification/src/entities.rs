//! Entities shared by the client and the server.
use vstd::prelude::*;

verus! {

/// A todo record.
#[derive(Debug)]
pub struct Todo {
    /// The id of the record.
    pub id: i64,
    /// The description, i.e. what to do.
    pub description: String,
}

/// The data that is intended to be used to either create a new todo or
/// update an existing one. It is validated before it is written.
#[derive(Clone, Debug)]
pub struct TodoChangeset {
    /// The description must be at least 1 character long.
    pub description: String,
}

/// Why a changeset was refused.
#[derive(Clone, Copy, Debug, PartialEq, Eq, Structural)]
pub enum ChangesetError {
    /// The description is shorter than one character.
    DescriptionTooShort,
}

impl ChangesetError {
    /// The field that the failure concerns.
    pub fn field(&self) -> (r: &'static str)
        ensures
            r@ == "description"@,
    {
        "description"
    }

    /// The message that the failure shows.
    pub fn message(&self) -> (r: &'static str)
        ensures
            r@ == "Description must be at least 1 character long"@,
    {
        "Description must be at least 1 character long"
    }
}

/// Whether a length meets a length rule: with `equal` given, only that is
/// compared; otherwise the length must be at least `min` and at most `max`,
/// each where given.
pub open spec fn length_within(len: nat, min: Option<u64>, max: Option<u64>, equal: Option<u64>) -> bool {
    match equal {
        Some(eq) => len == eq,
        None => (min is None || len >= min->0) && (max is None || len <= max->0),
    }
}

/// Calls `validator::ValidateLength::validate_length` on a string, whose
/// length it counts in chars. Its source compares only with `equal` when
/// that is given, and otherwise with `min` and `max` where they are given.
#[verifier::external_body]
fn validate_length(s: &String, min: Option<u64>, max: Option<u64>, equal: Option<u64>) -> (r: bool)
    ensures
        r == length_within(s@.len(), min, max, equal),
{
    validator::ValidateLength::<u64>::validate_length(s, min, max, equal)
}

impl TodoChangeset {
    /// Validates the changeset: the description must hold at least one
    /// character.
    pub fn validate(&self) -> (r: Result<(), ChangesetError>)
        ensures
            r is Ok <==> self.description@.len() >= 1,
            r is Err ==> r == Err::<(), ChangesetError>(ChangesetError::DescriptionTooShort),
    {
        if validate_length(&self.description, Some(1), None, None) {
            Ok(())
        } else {
            Err(ChangesetError::DescriptionTooShort)
        }
    }
}

} // verus!
