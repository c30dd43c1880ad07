//! The stored actor row and its classification into a local or remote actor.
//!
//! Classification is derived, never stored: a row is local exactly when both
//! its account link and its shared inbox are present; any other combination
//! degrades to remote.
use vstd::prelude::*;

verus! {

use vstd::string::StringExecFns;
use crate::ap::ActorType;
use crate::ids::{AccountId, ActorId};
use crate::urls::{HttpUrl, UrlModel, spec_url_ok, spec_url_model};

/// The mathematical value of a stored actor row.
pub struct RowModel {
    pub id: ActorId,
    pub actor_type: ActorType,
    pub name: Seq<char>,
    pub actor_url: UrlModel,
    pub inbox_url: UrlModel,
    pub outbox_url: UrlModel,
    pub shared_inbox_url: Option<UrlModel>,
    pub account_id: Option<AccountId>,
}

/// The flat, storage-facing shape of an actor.
#[derive(Debug)]
pub struct ActorRow {
    pub id: ActorId,
    pub actor_type: ActorType,
    /// The preferred handle; unique only within a host.
    pub name: String,
    /// The canonical identifier; globally unique.
    pub actor_url: HttpUrl,
    pub inbox_url: HttpUrl,
    pub outbox_url: HttpUrl,
    /// Present only for actors hosted by this server.
    pub shared_inbox_url: Option<HttpUrl>,
    /// Present only for actors hosted by this server.
    pub account_id: Option<AccountId>,
}

impl View for ActorRow {
    type V = RowModel;

    open spec fn view(&self) -> RowModel {
        RowModel {
            id: self.id,
            actor_type: self.actor_type,
            name: self.name@,
            actor_url: self.actor_url@,
            inbox_url: self.inbox_url@,
            outbox_url: self.outbox_url@,
            shared_inbox_url: match self.shared_inbox_url {
                Some(u) => Some(u@),
                None => None,
            },
            account_id: self.account_id,
        }
    }
}

impl Clone for ActorRow {
    fn clone(&self) -> (r: Self)
        ensures
            r@ == self@,
    {
        ActorRow {
            id: self.id,
            actor_type: self.actor_type,
            name: self.name.clone(),
            actor_url: self.actor_url.clone(),
            inbox_url: self.inbox_url.clone(),
            outbox_url: self.outbox_url.clone(),
            shared_inbox_url: match &self.shared_inbox_url {
                Some(u) => Some(u.clone()),
                None => None,
            },
            account_id: self.account_id,
        }
    }
}

impl ActorRow {
    /// The host that owns this actor: the host of its actor URL.
    pub fn host(&self) -> (r: &str)
        ensures
            r@ == self@.actor_url.host,
    {
        self.actor_url.host()
    }
}

/// A row is local exactly when both the account link and the shared inbox
/// are present.
pub open spec fn spec_is_local(row: RowModel) -> bool {
    row.account_id is Some && row.shared_inbox_url is Some
}

/// The mathematical value of a local actor.
pub struct LocalActorModel {
    pub id: ActorId,
    pub actor_type: ActorType,
    pub name: Seq<char>,
    pub actor_url: UrlModel,
    pub inbox_url: UrlModel,
    pub outbox_url: UrlModel,
    pub shared_inbox_url: UrlModel,
    pub account_id: AccountId,
}

/// An actor hosted by this server: its account link and shared inbox are
/// always present.
#[derive(Debug)]
pub struct LocalActor {
    pub id: ActorId,
    pub actor_type: ActorType,
    pub name: String,
    pub actor_url: HttpUrl,
    pub inbox_url: HttpUrl,
    pub outbox_url: HttpUrl,
    pub shared_inbox_url: HttpUrl,
    pub account_id: AccountId,
}

impl View for LocalActor {
    type V = LocalActorModel;

    open spec fn view(&self) -> LocalActorModel {
        LocalActorModel {
            id: self.id,
            actor_type: self.actor_type,
            name: self.name@,
            actor_url: self.actor_url@,
            inbox_url: self.inbox_url@,
            outbox_url: self.outbox_url@,
            shared_inbox_url: self.shared_inbox_url@,
            account_id: self.account_id,
        }
    }
}

/// The row a local actor is stored as.
pub open spec fn spec_local_to_row(a: LocalActorModel) -> RowModel {
    RowModel {
        id: a.id,
        actor_type: a.actor_type,
        name: a.name,
        actor_url: a.actor_url,
        inbox_url: a.inbox_url,
        outbox_url: a.outbox_url,
        shared_inbox_url: Some(a.shared_inbox_url),
        account_id: Some(a.account_id),
    }
}

impl LocalActor {
    /// The flat row this local actor is stored as.
    pub fn into_row(self) -> (r: ActorRow)
        ensures
            r@ == spec_local_to_row(self@),
    {
        ActorRow {
            id: self.id,
            actor_type: self.actor_type,
            name: self.name,
            actor_url: self.actor_url,
            inbox_url: self.inbox_url,
            outbox_url: self.outbox_url,
            shared_inbox_url: Some(self.shared_inbox_url),
            account_id: Some(self.account_id),
        }
    }
}

/// The mathematical value of a remote actor.
pub struct RemoteActorModel {
    pub id: ActorId,
    pub actor_type: ActorType,
    pub name: Seq<char>,
    pub actor_url: UrlModel,
    pub inbox_url: UrlModel,
    pub outbox_url: UrlModel,
    pub shared_inbox_url: Option<UrlModel>,
}

/// An actor discovered on another server, cached without an account link.
#[derive(Debug)]
pub struct RemoteActor {
    pub id: ActorId,
    pub actor_type: ActorType,
    pub name: String,
    pub actor_url: HttpUrl,
    pub inbox_url: HttpUrl,
    pub outbox_url: HttpUrl,
    pub shared_inbox_url: Option<HttpUrl>,
}

impl View for RemoteActor {
    type V = RemoteActorModel;

    open spec fn view(&self) -> RemoteActorModel {
        RemoteActorModel {
            id: self.id,
            actor_type: self.actor_type,
            name: self.name@,
            actor_url: self.actor_url@,
            inbox_url: self.inbox_url@,
            outbox_url: self.outbox_url@,
            shared_inbox_url: match self.shared_inbox_url {
                Some(u) => Some(u@),
                None => None,
            },
        }
    }
}

/// The row a remote actor is stored as.
pub open spec fn spec_remote_to_row(a: RemoteActorModel) -> RowModel {
    RowModel {
        id: a.id,
        actor_type: a.actor_type,
        name: a.name,
        actor_url: a.actor_url,
        inbox_url: a.inbox_url,
        outbox_url: a.outbox_url,
        shared_inbox_url: a.shared_inbox_url,
        account_id: None,
    }
}

impl RemoteActor {
    /// The flat row this remote actor is stored as.
    pub fn into_row(self) -> (r: ActorRow)
        ensures
            r@ == spec_remote_to_row(self@),
    {
        ActorRow {
            id: self.id,
            actor_type: self.actor_type,
            name: self.name,
            actor_url: self.actor_url,
            inbox_url: self.inbox_url,
            outbox_url: self.outbox_url,
            shared_inbox_url: self.shared_inbox_url,
            account_id: None,
        }
    }
}

/// The mathematical value of a classified actor.
pub enum ActorModel {
    Local(LocalActorModel),
    Remote(RemoteActorModel),
}

/// A classified actor: hosted by this server, or discovered elsewhere.
#[derive(Debug)]
pub enum Actor {
    Local(LocalActor),
    Remote(RemoteActor),
}

impl View for Actor {
    type V = ActorModel;

    open spec fn view(&self) -> ActorModel {
        match self {
            Actor::Local(a) => ActorModel::Local(a@),
            Actor::Remote(a) => ActorModel::Remote(a@),
        }
    }
}

/// The row a classified actor is stored as.
pub open spec fn spec_actor_to_row(a: ActorModel) -> RowModel {
    match a {
        ActorModel::Local(l) => spec_local_to_row(l),
        ActorModel::Remote(r) => spec_remote_to_row(r),
    }
}

impl Actor {
    /// Classify a stored row: local exactly when both the account link and
    /// the shared inbox are present, remote otherwise. A local actor keeps
    /// every attribute; the degraded case (an account link without a shared
    /// inbox) becomes remote and drops the account link.
    pub fn from_row(row: ActorRow) -> (r: Actor)
        ensures
            r@ is Local <==> spec_is_local(row@),
            spec_is_local(row@) ==> spec_actor_to_row(r@) == row@,
            !spec_is_local(row@) ==> spec_actor_to_row(r@) == (RowModel {
                account_id: None,
                ..row@
            }),
            classifies(row@, r@),
    {
        let ActorRow {
            id,
            actor_type,
            name,
            actor_url,
            inbox_url,
            outbox_url,
            shared_inbox_url,
            account_id,
        } = row;
        match (account_id, shared_inbox_url) {
            (Some(account_id), Some(shared_inbox_url)) => Actor::Local(
                LocalActor {
                    id,
                    actor_type,
                    name,
                    actor_url,
                    inbox_url,
                    outbox_url,
                    shared_inbox_url,
                    account_id,
                },
            ),
            (_, shared_inbox_url) => Actor::Remote(
                RemoteActor { id, actor_type, name, actor_url, inbox_url, outbox_url, shared_inbox_url },
            ),
        }
    }

    /// The flat row this actor is stored as.
    pub fn into_row(self) -> (r: ActorRow)
        ensures
            r@ == spec_actor_to_row(self@),
    {
        match self {
            Actor::Local(a) => a.into_row(),
            Actor::Remote(a) => a.into_row(),
        }
    }

    pub fn as_local(&self) -> (r: Option<&LocalActor>)
        ensures
            match r {
                Some(a) => self@ == ActorModel::Local(a@),
                None => self@ is Remote,
            },
    {
        match self {
            Actor::Local(a) => Some(a),
            Actor::Remote(_) => None,
        }
    }

    pub fn as_remote(&self) -> (r: Option<&RemoteActor>)
        ensures
            match r {
                Some(a) => self@ == ActorModel::Remote(a@),
                None => self@ is Local,
            },
    {
        match self {
            Actor::Local(_) => None,
            Actor::Remote(a) => Some(a),
        }
    }

    pub fn is_local(&self) -> (r: bool)
        ensures
            r == (self@ is Local),
    {
        matches!(self, Actor::Local(_))
    }

    pub fn is_remote(&self) -> (r: bool)
        ensures
            r == (self@ is Remote),
    {
        matches!(self, Actor::Remote(_))
    }
}

/// Classifying a row and flattening the classified actor back gives the row
/// unchanged, and the classification reads exactly the presence of the
/// account link and the shared inbox.
pub proof fn lemma_classification_round_trip(a: ActorModel)
    ensures
        spec_is_local(spec_actor_to_row(a)) <==> a is Local,
{
}

/// `a` is the classification of the stored row `row`: the variant reads
/// exactly the presence of the account link and the shared inbox, a local
/// actor keeps every attribute, and the degraded remote case drops only the
/// account link.
pub open spec fn classifies(row: RowModel, a: ActorModel) -> bool {
    &&& (a is Local <==> spec_is_local(row))
    &&& (spec_is_local(row) ==> spec_actor_to_row(a) == row)
    &&& (!spec_is_local(row) ==> spec_actor_to_row(a) == (RowModel { account_id: None, ..row }))
}

#[derive(Debug, Clone)]
pub enum CreateActorError {
    /// The unique key collided with different attribute values.
    AlreadyExists,
    /// No account exists under the given identifier.
    AccountNotExists,
    /// Any other storage failure, with its message.
    DataBaseError(String),
}

#[derive(Debug, Clone)]
pub enum FindActorError {
    NotFound,
    /// A stored value failed to reparse: corrupt persisted state.
    InvalidData(String),
    DataBaseError(String),
}

/// A request to create the local actor owned by an account.
#[derive(Debug, Clone, Copy)]
pub struct CreateLocalActorRequest {
    pub account_id: AccountId,
}

/// A request to resolve an actor by host and preferred name.
#[derive(Debug, Clone)]
pub struct ResolveActorRequest {
    /// The host that owns the actor.
    pub host: String,
    /// The actor's preferred name on that host.
    pub name: String,
}

#[derive(Debug, Clone)]
pub enum WebFingerError {
    /// The remote server answered with this 4xx or 5xx status.
    HttpStatusError(u16),
    /// The remote server answered with something other than the expected
    /// document; holds the reason.
    UnexpectedResponse(String),
    /// Reserved; never produced.
    InvalidSignature,
    /// The WebFinger document has no usable self link.
    MissingSelfLink,
    /// A transport failure, with its message.
    Unknown(String),
}

#[derive(Debug, Clone)]
pub enum ResolveActorError {
    WebFingerError(WebFingerError),
    DataBaseError(String),
}

impl CreateActorError {
    /// The displayed text of this error.
    pub open spec fn spec_message(&self) -> Seq<char> {
        match self {
            CreateActorError::AlreadyExists => "actor is already exists"@,
            CreateActorError::AccountNotExists => "account is not exists"@,
            CreateActorError::DataBaseError(m) => m@,
        }
    }

    /// The displayed text of this error.
    pub fn message(&self) -> (r: String)
        ensures
            r@ == self.spec_message(),
    {
        match self {
            CreateActorError::AlreadyExists => String::from_str("actor is already exists"),
            CreateActorError::AccountNotExists => String::from_str("account is not exists"),
            CreateActorError::DataBaseError(m) => m.clone(),
        }
    }
}

impl FindActorError {
    /// The displayed text of this error.
    pub open spec fn spec_message(&self) -> Seq<char> {
        match self {
            FindActorError::NotFound => "actor not found"@,
            FindActorError::InvalidData(m) => m@,
            FindActorError::DataBaseError(m) => m@,
        }
    }

    /// The displayed text of this error.
    pub fn message(&self) -> (r: String)
        ensures
            r@ == self.spec_message(),
    {
        match self {
            FindActorError::NotFound => String::from_str("actor not found"),
            FindActorError::InvalidData(m) => m.clone(),
            FindActorError::DataBaseError(m) => m.clone(),
        }
    }
}

impl ResolveActorError {
    /// How a WebFinger failure surfaces from resolution.
    pub fn from_webfinger(e: WebFingerError) -> (r: ResolveActorError)
        ensures
            r == ResolveActorError::WebFingerError(e),
    {
        ResolveActorError::WebFingerError(e)
    }
}

/// An actor row reconstructed from its stored parts. A stored URL that fails
/// to reparse as a valid HTTP URL surfaces as `InvalidData`: it indicates
/// corrupt persisted state.
pub fn actor_row_from_parts(
    id_value: u128,
    actor_type: ActorType,
    name: String,
    actor_url: &str,
    inbox_url: &str,
    outbox_url: &str,
    shared_inbox_url: Option<&str>,
    account_id_value: Option<u128>,
) -> (r: Result<ActorRow, FindActorError>)
    ensures
        r is Ok <==> spec_url_ok(actor_url@) && spec_url_ok(inbox_url@) && spec_url_ok(outbox_url@)
            && (shared_inbox_url matches Some(s) ==> spec_url_ok(s@)),
        r matches Ok(row) ==> {
            &&& row@.id.value == id_value
            &&& row@.actor_type == actor_type
            &&& row@.name == name@
            &&& row@.actor_url == spec_url_model(actor_url@)
            &&& row@.inbox_url == spec_url_model(inbox_url@)
            &&& row@.outbox_url == spec_url_model(outbox_url@)
            &&& (match shared_inbox_url {
                Some(s) => row@.shared_inbox_url == Some(spec_url_model(s@)),
                None => row@.shared_inbox_url is None,
            })
            &&& (match account_id_value {
                Some(v) => row@.account_id matches Some(a) && a.value == v,
                None => row@.account_id is None,
            })
        },
        r matches Err(e) ==> e matches FindActorError::InvalidData(m) && m@ == "expected valid url"@,
{
    let id = ActorId::from_value(id_value);
    let actor_url = match HttpUrl::parse(actor_url) {
        Ok(u) => u,
        Err(_) => {
            return Err(FindActorError::InvalidData(String::from_str("expected valid url")));
        },
    };
    let inbox_url = match HttpUrl::parse(inbox_url) {
        Ok(u) => u,
        Err(_) => {
            return Err(FindActorError::InvalidData(String::from_str("expected valid url")));
        },
    };
    let outbox_url = match HttpUrl::parse(outbox_url) {
        Ok(u) => u,
        Err(_) => {
            return Err(FindActorError::InvalidData(String::from_str("expected valid url")));
        },
    };
    let shared_inbox_url = match shared_inbox_url {
        Some(s) => match HttpUrl::parse(s) {
            Ok(u) => Some(u),
            Err(_) => {
                return Err(FindActorError::InvalidData(String::from_str("expected valid url")));
            },
        },
        None => None,
    };
    let account_id = match account_id_value {
        Some(v) => Some(AccountId::from_value(v)),
        None => None,
    };
    Ok(ActorRow { id, actor_type, name, actor_url, inbox_url, outbox_url, shared_inbox_url, account_id })
}

} // verus!
