//! Notes published by local actors or received from remote ones.
use vstd::prelude::*;

verus! {

use crate::ids::{AccountId, ActorId, NoteId};
use crate::urls::HttpUrl;
use crate::actor::FindActorError;

/// A note, local or remote.
#[derive(Debug)]
pub enum Note {
    Local(LocalNote),
    Remote(RemoteNote),
}

/// A note created by a local account.
#[derive(Debug)]
pub struct LocalNote {
    pub id: NoteId,
    /// Who created the note.
    pub account_id: AccountId,
    pub actor_id: ActorId,
    pub content: String,
    pub note_url: HttpUrl,
}

/// A request to create a note for a local account.
#[derive(Debug)]
pub struct CreateLocalNoteRequest {
    /// Who creates the note.
    pub account_id: AccountId,
    pub content: String,
}

#[derive(Debug, Clone)]
pub enum CreateLocalNoteError {
    ActorNotFound,
    Unknown(String),
}

impl CreateLocalNoteError {
    /// How a failed actor lookup surfaces from note creation.
    pub fn from_find_actor_error(e: FindActorError) -> (r: CreateLocalNoteError)
        ensures
            match e {
                FindActorError::NotFound => r == CreateLocalNoteError::ActorNotFound,
                FindActorError::InvalidData(m) => r == CreateLocalNoteError::Unknown(m),
                FindActorError::DataBaseError(m) => r == CreateLocalNoteError::Unknown(m),
            },
    {
        match e {
            FindActorError::NotFound => CreateLocalNoteError::ActorNotFound,
            FindActorError::InvalidData(m) => CreateLocalNoteError::Unknown(m),
            FindActorError::DataBaseError(m) => CreateLocalNoteError::Unknown(m),
        }
    }
}

/// A request to record a note discovered on another server.
#[derive(Debug)]
pub struct CreateRemoteNoteRequest {
    pub name: String,
    pub host: String,
    pub content: String,
    pub note_url: HttpUrl,
}

/// A note received from a remote actor.
#[derive(Debug)]
pub struct RemoteNote {
    pub id: NoteId,
    pub actor_id: ActorId,
    pub content: String,
    pub note_url: HttpUrl,
}

#[derive(Debug, Clone)]
pub enum CreateRemoteNoteError {
    ActorNotFound,
    Unknown(String),
}

impl CreateRemoteNoteError {
    /// How a failed actor lookup surfaces from note creation.
    pub fn from_find_actor_error(e: FindActorError) -> (r: CreateRemoteNoteError)
        ensures
            match e {
                FindActorError::NotFound => r == CreateRemoteNoteError::ActorNotFound,
                FindActorError::InvalidData(m) => r == CreateRemoteNoteError::Unknown(m),
                FindActorError::DataBaseError(m) => r == CreateRemoteNoteError::Unknown(m),
            },
    {
        match e {
            FindActorError::NotFound => CreateRemoteNoteError::ActorNotFound,
            FindActorError::InvalidData(m) => CreateRemoteNoteError::Unknown(m),
            FindActorError::DataBaseError(m) => CreateRemoteNoteError::Unknown(m),
        }
    }
}

} // verus!
