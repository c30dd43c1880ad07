//! The server side of WebFinger discovery: validating an incoming query
//! against this host and building the document served for a local account.
use vstd::prelude::*;

verus! {

use vstd::string::StringExecFns;
use crate::acct::AcctUri;
use crate::account::{AccountName, FindAccountError, is_valid_account_name};
use crate::ap::{
    WebFinger,
    WebFingerLink,
    activitypub_media_type,
    spec_activitypub_media_type,
    spec_is_self_link,
};
use crate::text::str_eq;
use crate::urls::{HostUrl, spec_actor_url};

/// How the WebFinger endpoint answers a bad request.
#[derive(Debug, Clone)]
pub enum ApiError {
    InternalServerError,
    BadRequest(String),
    NotFound(String),
}

impl ApiError {
    /// How an account-lookup failure is answered.
    pub fn from_find_account_error(e: FindAccountError) -> (r: ApiError)
        ensures
            match e {
                FindAccountError::InvalidName(_) => (r matches ApiError::BadRequest(m) && m@
                    == "invalid name"@),
                FindAccountError::Unknown(_) => r is InternalServerError,
            },
    {
        match e {
            FindAccountError::InvalidName(_) => ApiError::BadRequest(
                String::from_str("invalid name"),
            ),
            FindAccountError::Unknown(_) => ApiError::InternalServerError,
        }
    }
}

/// A WebFinger query: the `resource` parameter, already parsed as an
/// `acct` URI.
#[derive(Debug, Clone)]
pub struct WebFingerQuery {
    pub resource: AcctUri,
}

impl WebFingerQuery {
    /// The account name this query asks about. The query must address this
    /// host, and the user part must be a valid account name.
    pub fn try_into_domain(&self, host: &str) -> (r: Result<AccountName, ApiError>)
        ensures
            self.resource@.host != host@ ==> (r matches Err(e) && e matches ApiError::BadRequest(
                m,
            ) && m@ == "other host"@),
            self.resource@.host == host@ && is_valid_account_name(self.resource@.user) ==> (r
                matches Ok(n) && n@ == self.resource@.user),
            self.resource@.host == host@ && !is_valid_account_name(self.resource@.user) ==> (r
                matches Err(e) && e matches ApiError::BadRequest(m) && m@ == "name "@
                + self.resource@.user + " is invalid"@),
    {
        if !str_eq(self.resource.host.as_str(), host) {
            return Err(ApiError::BadRequest(String::from_str("other host")));
        }
        match AccountName::new(self.resource.user.as_str()) {
            Ok(n) => Ok(n),
            Err(e) => Err(ApiError::BadRequest(e.message())),
        }
    }
}

/// The WebFinger document this server serves for the account named `name`:
/// the `acct` subject and one self link, typed `application/activity+json`,
/// pointing at the published actor URL.
pub fn webfinger_document(name: &AccountName, host: &HostUrl) -> (wf: WebFinger)
    ensures
        wf@.subject == "acct:"@ + name@ + "@"@ + host@.host,
        wf@.links.len() == 1,
        wf@.links[0].rel == "self"@,
        wf@.links[0].kind == Some(spec_activitypub_media_type()),
        wf@.links[0].href == Some(spec_actor_url(host@, name@)),
        spec_is_self_link(wf@.links[0]),
{
    let mut subject = String::from_str("acct:");
    subject.append(name.as_str());
    subject.append("@");
    subject.append(host.host());
    let link = WebFingerLink {
        rel: String::from_str("self"),
        kind: Some(String::from_str(activitypub_media_type())),
        href: Some(host.actor_url(name.as_str())),
    };
    let ghost link_model = link@;
    let mut links: Vec<WebFingerLink> = Vec::new();
    links.push(link);
    let wf = WebFinger { subject, links };
    proof {
        assert(wf@.links.len() == 1);
        assert(wf@.links[0] == link_model);
    }
    wf
}

} // verus!
