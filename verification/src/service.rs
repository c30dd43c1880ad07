//! The actor-resolution service: cache lookup, cache-miss discovery, and
//! upsert-then-classify persistence.
//!
//! Resolution is split at its waiting points. The caller first asks the
//! cache; only on a miss does it run the WebFinger discovery, whose outcome
//! it hands to [`Service::resolve_actor_discovered`]. The decision taken at
//! each point also stands alone ([`resolve_cache_step`],
//! [`resolve_persist_step`]) for drivers that keep their rows elsewhere.
use vstd::prelude::*;

verus! {

use vstd::string::StringExecFns;
use crate::account::{Account, AccountModel, FindAccountError};
use crate::actor::{
    Actor,
    ActorRow,
    CreateActorError,
    FindActorError,
    LocalActor,
    ResolveActorError,
    ResolveActorRequest,
    RowModel,
    WebFingerError,
    classifies,
    spec_local_to_row,
};
use crate::ap;
use crate::ap::{ActorDocModel, ActorType};
use crate::ids::ActorId;
use crate::store::{
    ActorStore,
    same_attrs,
    same_url_key,
    spec_upsert_grows,
    spec_upsert_hit,
    wf_rows,
    lemma_growing_insert_preserves_wf,
};
use crate::urls::{
    HostUrl,
    HostUrlModel,
    HttpUrl,
    spec_actor_url,
    spec_inbox_url,
    spec_outbox_url,
    spec_shared_inbox_url,
};

/// The remote-shaped row a discovered actor document is persisted as: a
/// fresh identifier, the document's attributes, and no account link or
/// shared inbox.
pub open spec fn spec_remote_row(d: ActorDocModel, id: ActorId) -> RowModel {
    RowModel {
        id,
        actor_type: d.kind,
        name: d.preferred_username,
        actor_url: d.id,
        inbox_url: d.inbox,
        outbox_url: d.outbox,
        shared_inbox_url: None,
        account_id: None,
    }
}

/// The row a discovered actor document is persisted as.
pub fn remote_actor_row(doc: ap::Actor, fresh: ActorId) -> (r: ActorRow)
    ensures
        r@ == spec_remote_row(doc@, fresh),
{
    ActorRow {
        id: fresh,
        actor_type: doc.kind,
        name: doc.preferred_username,
        actor_url: doc.id,
        inbox_url: doc.inbox,
        outbox_url: doc.outbox,
        shared_inbox_url: None,
        account_id: None,
    }
}

/// The local-shaped row created for an account: a person actor under the
/// server's naming scheme, with the shared inbox and the account link set.
pub open spec fn spec_local_actor_row(h: HostUrlModel, a: AccountModel, id: ActorId) -> RowModel {
    RowModel {
        id,
        actor_type: ActorType::Person,
        name: a.name,
        actor_url: spec_actor_url(h, a.name),
        inbox_url: spec_inbox_url(h, a.name),
        outbox_url: spec_outbox_url(h, a.name),
        shared_inbox_url: Some(spec_shared_inbox_url(h)),
        account_id: Some(a.id),
    }
}

/// The row the local actor owned by `account` is persisted as: a person
/// actor under the host's naming scheme, with the shared inbox and the
/// account link set.
pub fn local_actor_row(account: &Account, fresh: ActorId, host: &HostUrl) -> (r: ActorRow)
    ensures
        r@ == spec_local_actor_row(host@, account@, fresh),
{
    let name = account.name();
    ActorRow {
        id: fresh,
        actor_type: ActorType::Person,
        name: String::from_str(name.as_str()),
        actor_url: host.actor_url(name.as_str()),
        inbox_url: host.inbox_url(name.as_str()),
        outbox_url: host.outbox_url(name.as_str()),
        shared_inbox_url: Some(host.shared_inbox_url()),
        account_id: Some(*account.id()),
    }
}

/// The decision taken after the cache lookup of a resolution: a found row is
/// classified and resolution is finished; a missing row means discovery must
/// run; a lookup failure surfaces as a database error.
pub fn resolve_cache_step(found: Result<Option<ActorRow>, FindActorError>) -> (r: Result<
    Option<Actor>,
    ResolveActorError,
>)
    ensures
        match found {
            Ok(Some(row)) => (r matches Ok(o) && o matches Some(a) && classifies(row@, a@)),
            Ok(None) => (r matches Ok(o) && o is None),
            Err(e) => (r matches Err(re) && re matches ResolveActorError::DataBaseError(m) && m@
                == e.spec_message()),
        },
{
    match found {
        Ok(Some(row)) => Ok(Some(Actor::from_row(row))),
        Ok(None) => Ok(None),
        Err(e) => Err(ResolveActorError::DataBaseError(e.message())),
    }
}

/// The decision taken after persisting a discovered actor: a stored row is
/// classified and returned; a storage failure surfaces as a database error
/// carrying the failure's text.
pub fn resolve_persist_step(created: Result<ActorRow, CreateActorError>) -> (r: Result<
    Actor,
    ResolveActorError,
>)
    ensures
        match created {
            Ok(row) => (r matches Ok(a) && classifies(row@, a@)),
            Err(e) => (r matches Err(re) && re matches ResolveActorError::DataBaseError(m) && m@
                == e.spec_message()),
        },
{
    match created {
        Ok(row) => Ok(Actor::from_row(row)),
        Err(e) => Err(ResolveActorError::DataBaseError(e.message())),
    }
}

/// The actor-resolution service: the single entry point callers use. It
/// owns the actor repository and the host-URL configuration.
#[derive(Debug)]
pub struct Service {
    store: ActorStore,
    host_url: HostUrl,
}

impl Service {
    /// The stored rows.
    pub closed spec fn rows(&self) -> Seq<RowModel> {
        self.store@
    }

    /// The host-URL configuration.
    pub closed spec fn host_model(&self) -> HostUrlModel {
        self.host_url@
    }

    /// The service invariant: the repository keys are unique.
    pub open spec fn inv(&self) -> bool {
        wf_rows(self.rows())
    }

    pub fn new(store: ActorStore, host_url: HostUrl) -> (r: Service)
        requires
            store.inv(),
        ensures
            r.rows() == store@,
            r.host_model() == host_url@,
            r.inv(),
    {
        Service { store, host_url }
    }

    /// The host-URL configuration this service publishes actors under.
    pub fn host_url(&self) -> (r: &HostUrl)
        ensures
            r@ == self.host_model(),
    {
        &self.host_url
    }

    /// The classified actor stored under this identifier, if any.
    pub fn find_actor_by_id(&self, id: &ActorId) -> (r: Option<Actor>)
        ensures
            match r {
                Some(a) => exists|i: int|
                    0 <= i < self.rows().len() && (#[trigger] self.rows()[i]).id == *id
                        && classifies(self.rows()[i], a@),
                None => forall|i: int|
                    0 <= i < self.rows().len() ==> (#[trigger] self.rows()[i]).id != *id,
            },
    {
        match self.store.find_by_id(id) {
            Some(row) => Some(Actor::from_row(row)),
            None => None,
        }
    }

    /// The cache phase of resolution by host and preferred name: the
    /// classified actor stored under that key, if any. On `None` the caller
    /// performs the WebFinger round trip and hands its outcome to
    /// [`Service::resolve_actor_discovered`].
    pub fn resolve_actor_cached(&self, req: &ResolveActorRequest) -> (r: Option<Actor>)
        ensures
            match r {
                Some(a) => exists|i: int|
                    0 <= i < self.rows().len() && (#[trigger] self.rows()[i]).actor_url.host
                        == req.host@ && self.rows()[i].name == req.name@ && classifies(
                        self.rows()[i],
                        a@,
                    ),
                None => forall|i: int|
                    0 <= i < self.rows().len() ==> !((#[trigger] self.rows()[i]).actor_url.host
                        == req.host@ && self.rows()[i].name == req.name@),
            },
    {
        match self.store.find_by_host_name(req.host.as_str(), req.name.as_str()) {
            Some(row) => Some(Actor::from_row(row)),
            None => None,
        }
    }

    /// The cache phase of resolution by actor URL: the classified actor
    /// stored under that URL, if any.
    pub fn resolve_actor_by_url_cached(&self, actor_url: &HttpUrl) -> (r: Option<Actor>)
        ensures
            match r {
                Some(a) => exists|i: int|
                    0 <= i < self.rows().len() && (#[trigger] self.rows()[i]).actor_url.text
                        == actor_url@.text && classifies(self.rows()[i], a@),
                None => forall|i: int|
                    0 <= i < self.rows().len() ==> (#[trigger] self.rows()[i]).actor_url.text
                        != actor_url@.text,
            },
    {
        match self.store.find_by_url(actor_url) {
            Some(row) => Some(Actor::from_row(row)),
            None => None,
        }
    }

    /// The persistence phase of resolution, fed with the discovery outcome.
    ///
    /// A discovery failure is returned as a WebFinger error and no row is
    /// created. A discovered document is persisted as a remote-shaped row
    /// under a fresh identifier; re-discovering an already stored identity
    /// returns the stored row (and so the stored identifier), and a genuine
    /// key conflict surfaces as a database error. The classified actor of
    /// the persisted row is returned.
    pub fn resolve_actor_discovered(
        &mut self,
        outcome: Result<ap::Actor, WebFingerError>,
        fresh: ActorId,
    ) -> (r: Result<Actor, ResolveActorError>)
        requires
            old(self).inv(),
        ensures
            final(self).inv(),
            final(self).host_model() == old(self).host_model(),
            match outcome {
                Err(e) => (r == Err::<Actor, ResolveActorError>(
                    ResolveActorError::WebFingerError(e),
                ) && final(self).rows() == old(self).rows()),
                Ok(doc) => ({
                    let m = spec_remote_row(doc@, fresh);
                    let rows0 = old(self).rows();
                    let rows1 = final(self).rows();
                    &&& (spec_upsert_grows(rows0, m) ==> (r matches Ok(a) && classifies(m, a@)
                        && rows1 == rows0.push(m)))
                    &&& (spec_upsert_hit(rows0, m) ==> (r matches Ok(a) && rows1 == rows0
                        && exists|i: int|
                        0 <= i < rows0.len() && same_url_key(#[trigger] rows0[i], m)
                            && same_attrs(rows0[i], m) && classifies(rows0[i], a@)))
                    &&& (!spec_upsert_grows(rows0, m) && !spec_upsert_hit(rows0, m) ==> (r
                        matches Err(re) && re matches ResolveActorError::DataBaseError(msg)
                        && msg@ == "actor is already exists"@ && rows1 == rows0))
                }),
            },
    {
        match outcome {
            Err(e) => Err(ResolveActorError::from_webfinger(e)),
            Ok(doc) => {
                let row = remote_actor_row(doc, fresh);
                match self.store.create(row) {
                    Ok(n) => Ok(Actor::from_row(n)),
                    Err(e) => Err(ResolveActorError::DataBaseError(e.message())),
                }
            },
        }
    }

    /// Create the local actor owned by an account, fed with the account
    /// lookup's outcome.
    ///
    /// A lookup failure surfaces as a database error, a missing account as
    /// `AccountNotExists`. Otherwise a local-shaped row — derived from the
    /// account's name by the host-URL naming scheme — is persisted as an
    /// upsert and reclassified; the result is always a local actor.
    pub fn create_local_actor(
        &mut self,
        account: Result<Option<Account>, FindAccountError>,
        fresh: ActorId,
    ) -> (r: Result<LocalActor, CreateActorError>)
        requires
            old(self).inv(),
        ensures
            final(self).inv(),
            final(self).host_model() == old(self).host_model(),
            match account {
                Err(e) => (r matches Err(ce) && ce matches CreateActorError::DataBaseError(m)
                    && m@ == e.spec_message() && final(self).rows() == old(self).rows()),
                Ok(None) => (r matches Err(ce) && ce is AccountNotExists && final(self).rows()
                    == old(self).rows()),
                Ok(Some(acc)) => ({
                    let m = spec_local_actor_row(old(self).host_model(), acc@, fresh);
                    let rows0 = old(self).rows();
                    let rows1 = final(self).rows();
                    &&& (spec_upsert_grows(rows0, m) ==> (r matches Ok(la) && spec_local_to_row(
                        la@,
                    ) == m && rows1 == rows0.push(m)))
                    &&& (spec_upsert_hit(rows0, m) ==> (r matches Ok(la) && rows1 == rows0
                        && exists|i: int|
                        0 <= i < rows0.len() && same_url_key(#[trigger] rows0[i], m)
                            && same_attrs(rows0[i], m) && spec_local_to_row(la@) == rows0[i]))
                    &&& (!spec_upsert_grows(rows0, m) && !spec_upsert_hit(rows0, m) ==> (r
                        matches Err(ce) && ce is AlreadyExists && rows1 == rows0))
                }),
            },
    {
        match account {
            Err(e) => Err(CreateActorError::DataBaseError(e.message())),
            Ok(None) => Err(CreateActorError::AccountNotExists),
            Ok(Some(acc)) => {
                let row = local_actor_row(&acc, fresh, &self.host_url);
                assert(row@ == spec_local_actor_row(self.host_model(), acc@, fresh));
                match self.store.create(row) {
                    Ok(n) => {
                        let any_actor = Actor::from_row(n);
                        match any_actor {
                            Actor::Local(local) => Ok(local),
                            Actor::Remote(_) => Err(
                                CreateActorError::DataBaseError(
                                    String::from_str("expect local actor"),
                                ),
                            ),
                        }
                    },
                    Err(e) => Err(e),
                }
            },
        }
    }
}

/// Resolving the same host and name twice performs the WebFinger round trip
/// only once and yields the same actor identifier both times: after a first
/// resolution has missed the cache, discovered the document naming that host
/// and handle, and grown the repository with it, the repository keys are
/// still unique, the cache lookup of a second resolution finds a row — so
/// the second call performs no discovery — and every row it can find is
/// exactly the row the first call persisted, fresh identifier included.
pub proof fn lemma_resolution_idempotent(
    rows: Seq<RowModel>,
    doc: ActorDocModel,
    fresh: ActorId,
    host: Seq<char>,
    name: Seq<char>,
)
    requires
        wf_rows(rows),
        forall|i: int|
            0 <= i < rows.len() ==> !((#[trigger] rows[i]).actor_url.host == host && rows[i].name
                == name),
        doc.id.host == host,
        doc.preferred_username == name,
        spec_upsert_grows(rows, spec_remote_row(doc, fresh)),
    ensures
        ({
            let rows2 = rows.push(spec_remote_row(doc, fresh));
            &&& wf_rows(rows2)
            &&& exists|i: int|
                0 <= i < rows2.len() && (#[trigger] rows2[i]).actor_url.host == host
                    && rows2[i].name == name
            &&& forall|i: int|
                0 <= i < rows2.len() && (#[trigger] rows2[i]).actor_url.host == host
                    && rows2[i].name == name ==> rows2[i] == spec_remote_row(doc, fresh)
        }),
{
    let m = spec_remote_row(doc, fresh);
    let rows2 = rows.push(m);
    lemma_growing_insert_preserves_wf(rows, m);
    assert(rows2[rows.len() as int] == m);
    assert(m.actor_url.host == host && m.name == name);
    assert forall|i: int|
        0 <= i < rows2.len() && (#[trigger] rows2[i]).actor_url.host == host && rows2[i].name
            == name implies rows2[i] == m by {
        if i < rows.len() {
            assert(rows2[i] == rows[i]);
        }
    }
}

} // verus!
