//! Validated HTTP URLs and the fixed URL-path naming scheme of this server.
//!
//! An [`HttpUrl`] is an absolute URL whose scheme is `http` or `https` and
//! which names a host; it is validated at construction time only, and all
//! downstream code may assume validity without re-checking. A [`HostUrl`] is
//! the read-only scheme/host configuration from which every URL this server
//! publishes is derived.
use vstd::prelude::*;

verus! {

use vstd::string::StringExecFns;
use crate::text::str_eq;

/// The mathematical value of an [`HttpUrl`]: its serialized text together
/// with the scheme and host read out of it.
pub struct UrlModel {
    pub text: Seq<char>,
    pub scheme: Seq<char>,
    pub host: Seq<char>,
}

/// True for the two schemes this service accepts.
pub open spec fn is_http_scheme(s: Seq<char>) -> bool {
    s == "http"@ || s == "https"@
}

/// The serialization of the URL that `url::Url::parse` yields on `s`, when
/// parsing succeeds.
pub uninterp spec fn parsed_url_text(s: Seq<char>) -> Option<Seq<char>>;

/// The scheme of the URL that `url::Url::parse` yields on `s`; meaningful
/// only when parsing succeeds.
pub uninterp spec fn parsed_url_scheme(s: Seq<char>) -> Seq<char>;

/// The host of the URL that `url::Url::parse` yields on `s`, when parsing
/// succeeds and the URL has one.
pub uninterp spec fn parsed_url_host(s: Seq<char>) -> Option<Seq<char>>;

/// Relies on `url::Url::parse` and the accessors `Url::as_str`,
/// `Url::scheme` and `Url::host_str`: parsing is a function of the input
/// text alone, `as_str` returns the normalized serialization, `scheme` the
/// (lowercase) scheme, and `host_str` the host when the URL has one.
#[verifier::external_body]
fn parse_url_parts(s: &str) -> (r: Option<(String, String, Option<String>)>)
    ensures
        r is Some <==> parsed_url_text(s@) is Some,
        match r {
            Some(parts) => {
                &&& parts.0@ == parsed_url_text(s@)->Some_0
                &&& parts.1@ == parsed_url_scheme(s@)
                &&& (parts.2 is Some <==> parsed_url_host(s@) is Some)
                &&& (parts.2 is Some ==> parts.2->Some_0@ == parsed_url_host(s@)->Some_0)
            },
            None => true,
        },
{
    match url::Url::parse(s) {
        Ok(u) => {
            let text = u.as_str().to_string();
            let scheme = u.scheme().to_string();
            let host = u.host_str().map(|h| h.to_string());
            Some((text, scheme, host))
        },
        Err(_) => None,
    }
}

/// True when `s` parses as a valid HTTP URL: a parseable absolute URL with
/// an `http` or `https` scheme and a host.
pub open spec fn spec_url_ok(s: Seq<char>) -> bool {
    parsed_url_text(s) is Some && is_http_scheme(parsed_url_scheme(s)) && parsed_url_host(s)
        is Some
}

/// The model of the URL that `s` parses to; meaningful when `spec_url_ok(s)`.
pub open spec fn spec_url_model(s: Seq<char>) -> UrlModel {
    UrlModel {
        text: parsed_url_text(s)->Some_0,
        scheme: parsed_url_scheme(s),
        host: parsed_url_host(s)->Some_0,
    }
}

#[derive(Debug, Clone, Copy, PartialEq, Eq, Structural)]
pub enum HttpUrlError {
    /// The text is not a parseable absolute URL.
    InvalidUrl,
    /// The URL has no host.
    MissingHost,
    /// The scheme is neither `http` nor `https`.
    InvalidScheme,
}

/// A validated absolute URL with an `http` or `https` scheme and a host.
#[derive(Debug)]
pub struct HttpUrl {
    text: String,
    scheme: String,
    host: String,
}

impl View for HttpUrl {
    type V = UrlModel;

    closed spec fn view(&self) -> UrlModel {
        UrlModel { text: self.text@, scheme: self.scheme@, host: self.host@ }
    }
}

impl HttpUrl {
    #[verifier::type_invariant]
    spec fn type_inv(self) -> bool {
        is_http_scheme(self.scheme@)
    }

    /// Parse and validate: the text must be a parseable absolute URL, its
    /// scheme must be `http` or `https`, and it must name a host.
    pub fn parse(s: &str) -> (r: Result<HttpUrl, HttpUrlError>)
        ensures
            match r {
                Ok(u) => {
                    &&& parsed_url_text(s@) == Some(u@.text)
                    &&& u@.scheme == parsed_url_scheme(s@)
                    &&& parsed_url_host(s@) == Some(u@.host)
                    &&& is_http_scheme(u@.scheme)
                },
                Err(HttpUrlError::InvalidUrl) => parsed_url_text(s@) is None,
                Err(HttpUrlError::InvalidScheme) => parsed_url_text(s@) is Some
                    && !is_http_scheme(parsed_url_scheme(s@)),
                Err(HttpUrlError::MissingHost) => parsed_url_text(s@) is Some && is_http_scheme(
                    parsed_url_scheme(s@),
                ) && parsed_url_host(s@) is None,
            },
    {
        match parse_url_parts(s) {
            None => Err(HttpUrlError::InvalidUrl),
            Some(parts) => {
                let (text, scheme, host) = parts;
                if !(str_eq(scheme.as_str(), "http") || str_eq(scheme.as_str(), "https")) {
                    Err(HttpUrlError::InvalidScheme)
                } else {
                    match host {
                        None => Err(HttpUrlError::MissingHost),
                        Some(host) => Ok(HttpUrl { text, scheme, host }),
                    }
                }
            },
        }
    }

    /// The full serialized text.
    pub fn as_str(&self) -> (r: &str)
        ensures
            r@ == self@.text,
    {
        self.text.as_str()
    }

    /// The host component.
    pub fn host(&self) -> (r: &str)
        ensures
            r@ == self@.host,
    {
        self.host.as_str()
    }

    /// The scheme component: always `http` or `https`.
    pub fn scheme(&self) -> (r: &str)
        ensures
            r@ == self@.scheme,
            is_http_scheme(r@),
    {
        proof {
            use_type_invariant(self);
        }
        self.scheme.as_str()
    }
}

impl Clone for HttpUrl {
    fn clone(&self) -> (r: Self)
        ensures
            r@ == self@,
    {
        proof {
            use_type_invariant(self);
        }
        HttpUrl { text: self.text.clone(), scheme: self.scheme.clone(), host: self.host.clone() }
    }
}

impl PartialEq for HttpUrl {
    fn eq(&self, other: &HttpUrl) -> (r: bool) {
        let r = str_eq(self.text.as_str(), other.text.as_str()) && str_eq(
            self.scheme.as_str(),
            other.scheme.as_str(),
        ) && str_eq(self.host.as_str(), other.host.as_str());
        proof {
            if self@.text == other@.text && self@.scheme == other@.scheme && self@.host
                == other@.host {
                assert(self@ == other@);
            }
        }
        r
    }
}

impl vstd::std_specs::cmp::PartialEqSpecImpl for HttpUrl {
    open spec fn obeys_eq_spec() -> bool {
        true
    }

    open spec fn eq_spec(&self, other: &HttpUrl) -> bool {
        self@ == other@
    }
}

/// The mathematical value of a [`HostUrl`].
pub struct HostUrlModel {
    pub scheme: Seq<char>,
    pub host: Seq<char>,
}

/// The text `scheme://host`.
pub open spec fn spec_base_text(h: HostUrlModel) -> Seq<char> {
    h.scheme + "://"@ + h.host
}

/// The base URL `scheme://host`.
pub open spec fn spec_base_url(h: HostUrlModel) -> UrlModel {
    UrlModel { text: spec_base_text(h), scheme: h.scheme, host: h.host }
}

/// The actor URL `scheme://host/ap/actors/{user}`.
pub open spec fn spec_actor_url(h: HostUrlModel, user: Seq<char>) -> UrlModel {
    UrlModel { text: spec_base_text(h) + "/ap/actors/"@ + user, scheme: h.scheme, host: h.host }
}

/// The inbox URL `scheme://host/ap/actors/{user}/inbox`.
pub open spec fn spec_inbox_url(h: HostUrlModel, user: Seq<char>) -> UrlModel {
    UrlModel {
        text: spec_actor_url(h, user).text + "/inbox"@,
        scheme: h.scheme,
        host: h.host,
    }
}

/// The outbox URL `scheme://host/ap/actors/{user}/outbox`.
pub open spec fn spec_outbox_url(h: HostUrlModel, user: Seq<char>) -> UrlModel {
    UrlModel {
        text: spec_actor_url(h, user).text + "/outbox"@,
        scheme: h.scheme,
        host: h.host,
    }
}

/// The shared inbox URL `scheme://host/ap/inbox`.
pub open spec fn spec_shared_inbox_url(h: HostUrlModel) -> UrlModel {
    UrlModel { text: spec_base_text(h) + "/ap/inbox"@, scheme: h.scheme, host: h.host }
}

/// The note URL `scheme://host/ap/notes/{id}`.
pub open spec fn spec_note_url(h: HostUrlModel, id: Seq<char>) -> UrlModel {
    UrlModel { text: spec_base_text(h) + "/ap/notes/"@ + id, scheme: h.scheme, host: h.host }
}

/// The scheme and host this server publishes URLs under.
#[derive(Debug)]
pub struct HostUrl {
    scheme: String,
    host: String,
}

impl View for HostUrl {
    type V = HostUrlModel;

    closed spec fn view(&self) -> HostUrlModel {
        HostUrlModel { scheme: self.scheme@, host: self.host@ }
    }
}

impl Clone for HostUrl {
    fn clone(&self) -> (r: Self)
        ensures
            r@ == self@,
    {
        proof {
            use_type_invariant(self);
        }
        HostUrl { scheme: self.scheme.clone(), host: self.host.clone() }
    }
}

impl HostUrl {
    #[verifier::type_invariant]
    spec fn type_inv(self) -> bool {
        is_http_scheme(self.scheme@)
    }

    /// Read the configured scheme and host out of a URL text.
    pub fn new(host_url: &str) -> (r: Result<HostUrl, HttpUrlError>)
        ensures
            match r {
                Ok(h) => {
                    &&& parsed_url_text(host_url@) is Some
                    &&& h@.scheme == parsed_url_scheme(host_url@)
                    &&& parsed_url_host(host_url@) == Some(h@.host)
                    &&& is_http_scheme(h@.scheme)
                },
                Err(HttpUrlError::InvalidUrl) => parsed_url_text(host_url@) is None,
                Err(HttpUrlError::InvalidScheme) => parsed_url_text(host_url@) is Some
                    && !is_http_scheme(parsed_url_scheme(host_url@)),
                Err(HttpUrlError::MissingHost) => parsed_url_text(host_url@) is Some
                    && is_http_scheme(parsed_url_scheme(host_url@)) && parsed_url_host(host_url@)
                    is None,
            },
    {
        match HttpUrl::parse(host_url) {
            Ok(u) => {
                proof {
                    use_type_invariant(&u);
                }
                Ok(HostUrl { scheme: u.scheme, host: u.host })
            },
            Err(e) => Err(e),
        }
    }

    /// The configuration holding the scheme and host of an existing URL.
    pub fn from_http_url(url: &HttpUrl) -> (r: HostUrl)
        ensures
            r@.scheme == url@.scheme,
            r@.host == url@.host,
    {
        proof {
            use_type_invariant(url);
        }
        HostUrl { scheme: url.scheme.clone(), host: url.host.clone() }
    }

    /// The configured scheme: always `http` or `https`.
    pub fn scheme(&self) -> (r: &str)
        ensures
            r@ == self@.scheme,
            is_http_scheme(r@),
    {
        proof {
            use_type_invariant(self);
        }
        self.scheme.as_str()
    }

    /// The configured host.
    pub fn host(&self) -> (r: &str)
        ensures
            r@ == self@.host,
    {
        self.host.as_str()
    }

    fn base_text(&self) -> (r: String)
        ensures
            r@ == spec_base_text(self@),
    {
        let mut text = String::from_str(self.scheme.as_str());
        text.append("://");
        text.append(self.host.as_str());
        text
    }

    /// The base URL `scheme://host`.
    pub fn base_url(&self) -> (r: HttpUrl)
        ensures
            r@ == spec_base_url(self@),
    {
        proof {
            use_type_invariant(self);
        }
        let text = self.base_text();
        HttpUrl { text, scheme: self.scheme.clone(), host: self.host.clone() }
    }

    fn actor_text(&self, user: &str) -> (r: String)
        ensures
            r@ == spec_actor_url(self@, user@).text,
    {
        let mut text = self.base_text();
        text.append("/ap/actors/");
        text.append(user);
        text
    }

    /// The actor URL published for `user`.
    pub fn actor_url(&self, user: &str) -> (r: HttpUrl)
        ensures
            r@ == spec_actor_url(self@, user@),
    {
        proof {
            use_type_invariant(self);
        }
        let text = self.actor_text(user);
        HttpUrl { text, scheme: self.scheme.clone(), host: self.host.clone() }
    }

    /// The inbox URL published for `user`.
    pub fn inbox_url(&self, user: &str) -> (r: HttpUrl)
        ensures
            r@ == spec_inbox_url(self@, user@),
    {
        proof {
            use_type_invariant(self);
        }
        let mut text = self.actor_text(user);
        text.append("/inbox");
        HttpUrl { text, scheme: self.scheme.clone(), host: self.host.clone() }
    }

    /// The outbox URL published for `user`.
    pub fn outbox_url(&self, user: &str) -> (r: HttpUrl)
        ensures
            r@ == spec_outbox_url(self@, user@),
    {
        proof {
            use_type_invariant(self);
        }
        let mut text = self.actor_text(user);
        text.append("/outbox");
        HttpUrl { text, scheme: self.scheme.clone(), host: self.host.clone() }
    }

    /// The shared inbox URL of this server.
    pub fn shared_inbox_url(&self) -> (r: HttpUrl)
        ensures
            r@ == spec_shared_inbox_url(self@),
    {
        proof {
            use_type_invariant(self);
        }
        let mut text = self.base_text();
        text.append("/ap/inbox");
        HttpUrl { text, scheme: self.scheme.clone(), host: self.host.clone() }
    }

    /// The URL published for the note with text identifier `id`.
    pub fn note_url(&self, id: &str) -> (r: HttpUrl)
        ensures
            r@ == spec_note_url(self@, id@),
    {
        proof {
            use_type_invariant(self);
        }
        let mut text = self.base_text();
        text.append("/ap/notes/");
        text.append(id);
        HttpUrl { text, scheme: self.scheme.clone(), host: self.host.clone() }
    }
}

} // verus!
