//! Decisions of the WebFinger discovery client.
//!
//! Discovery is a two-hop exchange: a WebFinger lookup that must yield a
//! usable self link, then a fetch of the actor document that must pass the
//! identity cross-check. The network transfer and the JSON decoding happen at
//! the edge; every decision about a response is made here.
use vstd::prelude::*;

verus! {

use vstd::string::StringExecFns;
use crate::ap::{Actor, WebFinger, spec_actor_link};
use crate::actor::WebFingerError;
use crate::urls::HttpUrl;

/// The WebFinger query URL
/// `https://{host}/.well-known/webfinger?resource=acct:{name}@{host}`.
pub open spec fn spec_webfinger_request_url(host: Seq<char>, name: Seq<char>) -> Seq<char> {
    "https://"@ + host + "/.well-known/webfinger?resource=acct:"@ + name + "@"@ + host
}

/// The URL the WebFinger lookup for `name` on `host` is sent to.
pub fn webfinger_request_url(host: &str, name: &str) -> (r: String)
    ensures
        r@ == spec_webfinger_request_url(host@, name@),
{
    let mut url = String::from_str("https://");
    url.append(host);
    url.append("/.well-known/webfinger?resource=acct:");
    url.append(name);
    url.append("@");
    url.append(host);
    url
}

/// True for the statuses a lookup rejects: every 4xx and 5xx.
pub open spec fn spec_status_rejected(status: u16) -> bool {
    400 <= status < 600
}

/// Whether a response status is a client or server error.
pub fn status_rejected(status: u16) -> (r: bool)
    ensures
        r == spec_status_rejected(status),
{
    400 <= status && status < 600
}

/// Decide on the WebFinger response of the first hop: a 4xx or 5xx status is
/// an [`WebFingerError::HttpStatusError`]; an undecodable body (given here as
/// the decode failure's message) is an [`WebFingerError::UnexpectedResponse`];
/// a document without a usable self link is
/// [`WebFingerError::MissingSelfLink`]; otherwise the selected actor URL is
/// returned.
pub fn evaluate_webfinger_response(status: u16, body: Result<WebFinger, String>) -> (r: Result<
    HttpUrl,
    WebFingerError,
>)
    ensures
        spec_status_rejected(status) ==> r == Err::<HttpUrl, WebFingerError>(
            WebFingerError::HttpStatusError(status),
        ),
        !spec_status_rejected(status) ==> match body {
            Err(m) => r == Err::<HttpUrl, WebFingerError>(WebFingerError::UnexpectedResponse(m)),
            Ok(wf) => match spec_actor_link(wf@.links) {
                Some(u) => r matches Ok(url) && url@ == u,
                None => r == Err::<HttpUrl, WebFingerError>(WebFingerError::MissingSelfLink),
            },
        },
{
    if status_rejected(status) {
        return Err(WebFingerError::HttpStatusError(status));
    }
    match body {
        Err(m) => Err(WebFingerError::UnexpectedResponse(m)),
        Ok(wf) => match wf.actor_link() {
            Some(url) => Ok(url.clone()),
            None => Err(WebFingerError::MissingSelfLink),
        },
    }
}

/// Decide on the actor-document response of the second hop: a 4xx or 5xx
/// status and an undecodable body are rejected as for the first hop; a
/// decoded document whose `id` differs from the URL that was requested is
/// rejected as [`WebFingerError::UnexpectedResponse`] — a remote server must
/// not vouch for an identity it does not control. Only the document whose
/// `id` equals the requested URL is returned.
pub fn evaluate_actor_response(requested: &HttpUrl, status: u16, body: Result<Actor, String>) -> (r:
    Result<Actor, WebFingerError>)
    ensures
        spec_status_rejected(status) ==> r == Err::<Actor, WebFingerError>(
            WebFingerError::HttpStatusError(status),
        ),
        !spec_status_rejected(status) ==> match body {
            Err(m) => r == Err::<Actor, WebFingerError>(WebFingerError::UnexpectedResponse(m)),
            Ok(doc) => {
                if doc@.id == requested@ {
                    r matches Ok(d) && d@ == doc@
                } else {
                    r matches Err(e) && e matches WebFingerError::UnexpectedResponse(m) && m@
                        == "actor id is not matched"@
                }
            },
        },
{
    if status_rejected(status) {
        return Err(WebFingerError::HttpStatusError(status));
    }
    match body {
        Err(m) => Err(WebFingerError::UnexpectedResponse(m)),
        Ok(doc) => {
            if !(doc.id == *requested) {
                return Err(
                    WebFingerError::UnexpectedResponse(String::from_str("actor id is not matched")),
                );
            }
            Ok(doc)
        },
    }
}

} // verus!
