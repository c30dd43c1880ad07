//! The ActivityPub vocabulary this service speaks: actor documents, the
//! activity shapes, the recognized media types, and the WebFinger (JRD)
//! document with its self-link selection rule.
use vstd::prelude::*;

verus! {

use vstd::string::StringExecFns;
use crate::account::AccountName;
use crate::text::str_eq;
use crate::urls::{
    HostUrl,
    HttpUrl,
    UrlModel,
    spec_actor_url,
    spec_inbox_url,
    spec_outbox_url,
};

/// The ActivityPub media type.
pub open spec fn spec_activitypub_media_type() -> Seq<char> {
    "application/activity+json"@
}

/// The ActivityPub media type with the JSON-LD activity-streams profile.
pub open spec fn spec_activitypub_media_type_alt() -> Seq<char> {
    "application/ld+json; profile=\"https://www.w3.org/ns/activitystreams\""@
}

/// The WebFinger (JRD) media type.
pub open spec fn spec_webfinger_media_type() -> Seq<char> {
    "application/jrd+json"@
}

/// The ActivityPub media type, `application/activity+json`.
pub fn activitypub_media_type() -> (r: &'static str)
    ensures
        r@ == spec_activitypub_media_type(),
{
    "application/activity+json"
}

/// The ActivityPub media type with the JSON-LD activity-streams profile.
pub fn activitypub_media_type_alt() -> (r: &'static str)
    ensures
        r@ == spec_activitypub_media_type_alt(),
{
    "application/ld+json; profile=\"https://www.w3.org/ns/activitystreams\""
}

/// The WebFinger (JRD) media type, `application/jrd+json`.
pub fn webfinger_media_type() -> (r: &'static str)
    ensures
        r@ == spec_webfinger_media_type(),
{
    "application/jrd+json"
}

/// True for the media types under which an actor document is served.
pub open spec fn spec_is_activitypub_media_type(s: Seq<char>) -> bool {
    s == spec_activitypub_media_type() || s == spec_activitypub_media_type_alt()
}

/// The ActivityStreams actor types.
#[derive(Debug, Clone, Copy, PartialEq, Eq, Hash, Structural)]
pub enum ActorType {
    Person,
    Application,
    Service,
    Group,
    Organization,
}

/// The relationship activity types.
#[derive(Debug, Clone, Copy, PartialEq, Eq, Hash, Structural)]
pub enum RelationshipType {
    Follow,
    Accept,
    Reject,
    Block,
    Undo,
}

/// The status activity types.
#[derive(Debug, Clone, Copy, PartialEq, Eq, Hash, Structural)]
pub enum StatusType {
    Create,
    Update,
    Delete,
    Announce,
    Like,
}

/// ActivityPub audience fields.
#[derive(Debug)]
pub struct Audience {
    pub to: Option<Vec<HttpUrl>>,
    pub cc: Option<Vec<HttpUrl>>,
    pub bto: Option<Vec<HttpUrl>>,
    pub bcc: Option<Vec<HttpUrl>>,
}

impl Default for Audience {
    /// An audience with every field absent.
    fn default() -> (r: Audience)
        ensures
            r.to is None && r.cc is None && r.bto is None && r.bcc is None,
    {
        Audience { to: None, cc: None, bto: None, bcc: None }
    }
}

/// A status activity.
#[derive(Debug)]
pub struct StatusActivity {
    pub id: HttpUrl,
    pub kind: StatusType,
    pub actor: HttpUrl,
    pub audience: Audience,
    pub object: Option<HttpUrl>,
}

/// A relationship activity.
#[derive(Debug)]
pub struct RelationshipActivity {
    pub id: HttpUrl,
    pub kind: RelationshipType,
    pub actor: HttpUrl,
    pub audience: Audience,
    pub object: Option<HttpUrl>,
}

/// Either kind of activity.
#[derive(Debug)]
pub enum Activity {
    Status(StatusActivity),
    Relationship(Box<RelationshipActivity>),
}

/// The mathematical value of an actor document.
pub struct ActorDocModel {
    pub id: UrlModel,
    pub kind: ActorType,
    pub inbox: UrlModel,
    pub outbox: UrlModel,
    pub name: Option<Seq<char>>,
    pub preferred_username: Seq<char>,
}

/// An ActivityPub actor document, as fetched from or served to the network.
#[derive(Debug)]
pub struct Actor {
    pub id: HttpUrl,
    pub kind: ActorType,
    pub inbox: HttpUrl,
    pub outbox: HttpUrl,
    /// The displayed name, when the document carries one.
    pub name: Option<String>,
    /// The handle used for WebFinger lookup and mentions.
    pub preferred_username: String,
}

impl View for Actor {
    type V = ActorDocModel;

    open spec fn view(&self) -> ActorDocModel {
        ActorDocModel {
            id: self.id@,
            kind: self.kind,
            inbox: self.inbox@,
            outbox: self.outbox@,
            name: match self.name {
                Some(n) => Some(n@),
                None => None,
            },
            preferred_username: self.preferred_username@,
        }
    }
}

/// The mathematical value of a WebFinger link.
pub struct WebFingerLinkModel {
    pub rel: Seq<char>,
    pub kind: Option<Seq<char>>,
    pub href: Option<UrlModel>,
}

/// One link of a WebFinger (JRD) document.
#[derive(Debug)]
pub struct WebFingerLink {
    pub rel: String,
    /// The advertised media type (the JRD `type` member).
    pub kind: Option<String>,
    pub href: Option<HttpUrl>,
}

impl View for WebFingerLink {
    type V = WebFingerLinkModel;

    open spec fn view(&self) -> WebFingerLinkModel {
        WebFingerLinkModel {
            rel: self.rel@,
            kind: match self.kind {
                Some(k) => Some(k@),
                None => None,
            },
            href: match self.href {
                Some(u) => Some(u@),
                None => None,
            },
        }
    }
}

/// A link points at the actor when its relation is `self` and its media type
/// is one of the two ActivityPub media types.
pub open spec fn spec_is_self_link(l: WebFingerLinkModel) -> bool {
    &&& l.rel == "self"@
    &&& match l.kind {
        Some(k) => spec_is_activitypub_media_type(k),
        None => false,
    }
}

/// A link yields an actor URL when it is a self link and carries an `href`.
pub open spec fn spec_link_yields(l: WebFingerLinkModel) -> bool {
    spec_is_self_link(l) && l.href is Some
}

/// True when `i` is the position of the first link that yields an actor URL.
pub open spec fn is_first_actor_link(links: Seq<WebFingerLinkModel>, i: int) -> bool {
    &&& 0 <= i < links.len()
    &&& spec_link_yields(links[i])
    &&& forall|j: int| 0 <= j < i ==> !spec_link_yields(links[j])
}

/// The actor URL of the first yielding link, if any link yields one.
pub open spec fn spec_actor_link(links: Seq<WebFingerLinkModel>) -> Option<UrlModel> {
    if exists|i: int| is_first_actor_link(links, i) {
        links[choose|i: int| is_first_actor_link(links, i)].href
    } else {
        None
    }
}

pub proof fn lemma_first_actor_link_unique(links: Seq<WebFingerLinkModel>, i: int, j: int)
    requires
        is_first_actor_link(links, i),
        is_first_actor_link(links, j),
    ensures
        i == j,
{
}

impl WebFingerLink {
    /// Whether this link resolves to the actor.
    pub fn is_self_link(&self) -> (r: bool)
        ensures
            r == spec_is_self_link(self@),
    {
        let is_self = str_eq(self.rel.as_str(), "self");
        match &self.kind {
            None => false,
            Some(kind) => {
                let is_activitypub = str_eq(kind.as_str(), activitypub_media_type()) || str_eq(
                    kind.as_str(),
                    activitypub_media_type_alt(),
                );
                is_self && is_activitypub
            },
        }
    }

    /// The `href`, when this link resolves to the actor and carries one.
    pub fn actor_link(&self) -> (r: Option<&HttpUrl>)
        ensures
            match r {
                Some(u) => spec_link_yields(self@) && self@.href == Some(u@),
                None => !spec_link_yields(self@),
            },
    {
        if self.is_self_link() {
            self.href.as_ref()
        } else {
            None
        }
    }
}

/// The mathematical value of a WebFinger document.
pub struct WebFingerModel {
    pub subject: Seq<char>,
    pub links: Seq<WebFingerLinkModel>,
}

/// A WebFinger (JRD) document: a subject and its links.
#[derive(Debug)]
pub struct WebFinger {
    pub subject: String,
    pub links: Vec<WebFingerLink>,
}

impl View for WebFinger {
    type V = WebFingerModel;

    open spec fn view(&self) -> WebFingerModel {
        WebFingerModel {
            subject: self.subject@,
            links: self.links@.map_values(|l: WebFingerLink| l@),
        }
    }
}

impl WebFinger {
    /// The actor URL of the first self link that carries one, if any.
    pub fn actor_link(&self) -> (r: Option<&HttpUrl>)
        ensures
            match r {
                Some(u) => spec_actor_link(self@.links) == Some(u@),
                None => spec_actor_link(self@.links) is None,
            },
    {
        let n = self.links.len();
        let mut i: usize = 0;
        while i < n
            invariant
                i <= n,
                n == self.links.len(),
                forall|j: int| 0 <= j < i ==> !spec_link_yields(self@.links[j]),
            decreases n - i,
        {
            assert(self@.links[i as int] == self.links@[i as int]@);
            let link = &self.links[i];
            match link.actor_link() {
                Some(u) => {
                    proof {
                        assert(is_first_actor_link(self@.links, i as int));
                        let k = choose|k: int| is_first_actor_link(self@.links, k);
                        lemma_first_actor_link_unique(self@.links, i as int, k);
                    }
                    return Some(u);
                },
                None => {
                    i = i + 1;
                },
            }
        }
        proof {
            assert(forall|k: int| !is_first_actor_link(self@.links, k));
        }
        None
    }
}

/// The actor document this server publishes for the account named `name`.
pub fn actor_document(name: &AccountName, host: &HostUrl) -> (doc: Actor)
    ensures
        doc@.id == spec_actor_url(host@, name@),
        doc@.kind == ActorType::Person,
        doc@.inbox == spec_inbox_url(host@, name@),
        doc@.outbox == spec_outbox_url(host@, name@),
        doc@.name is None,
        doc@.preferred_username == name@,
{
    Actor {
        id: host.actor_url(name.as_str()),
        kind: ActorType::Person,
        inbox: host.inbox_url(name.as_str()),
        outbox: host.outbox_url(name.as_str()),
        name: None,
        preferred_username: String::from_str(name.as_str()),
    }
}

} // verus!
