//! Process-generated, time-ordered identifiers for the stored entities.
//!
//! An identifier is assigned once at row creation and never reassigned; it is
//! carried as the 128-bit value of a version-7 UUID.
use vstd::prelude::*;

verus! {

/// Relies on `uuid::Uuid::now_v7` (and `Uuid::as_u128`) for a fresh
/// time-ordered identifier value. The result depends on the clock and on
/// random bits, so nothing is promised of it.
#[verifier::external_body]
fn fresh_uuid_value() -> u128 {
    uuid::Uuid::now_v7().as_u128()
}

/// Identifier of an actor row.
#[derive(Debug, Clone, Copy, PartialEq, Eq, Hash, Structural)]
pub struct ActorId {
    pub value: u128,
}

impl ActorId {
    /// A freshly generated identifier.
    pub fn new() -> ActorId {
        ActorId { value: fresh_uuid_value() }
    }

    /// The identifier holding a stored 128-bit value.
    pub fn from_value(value: u128) -> (r: ActorId)
        ensures
            r.value == value,
    {
        ActorId { value }
    }
}

/// Identifier of an account.
#[derive(Debug, Clone, Copy, PartialEq, Eq, Hash, Structural)]
pub struct AccountId {
    pub value: u128,
}

impl AccountId {
    /// A freshly generated identifier.
    pub fn new() -> AccountId {
        AccountId { value: fresh_uuid_value() }
    }

    /// The identifier holding a stored 128-bit value.
    pub fn from_value(value: u128) -> (r: AccountId)
        ensures
            r.value == value,
    {
        AccountId { value }
    }
}

/// Identifier of a note.
#[derive(Debug, Clone, Copy, PartialEq, Eq, Hash, Structural)]
pub struct NoteId {
    pub value: u128,
}

impl NoteId {
    /// A freshly generated identifier.
    pub fn new() -> NoteId {
        NoteId { value: fresh_uuid_value() }
    }

    /// The identifier holding a stored 128-bit value.
    pub fn from_value(value: u128) -> (r: NoteId)
        ensures
            r.value == value,
    {
        NoteId { value }
    }
}

} // verus!
