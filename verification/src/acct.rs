//! The `acct:user@host` URI grammar used for WebFinger queries.
//!
//! Parsing strips the required `acct:` scheme and an optional leading `@`,
//! splits on the first `@`, and rejects an empty user or host. Formatting is
//! the exact inverse; no normalization is performed.
use vstd::prelude::*;

verus! {

use vstd::string::StrSliceExecFns;
use vstd::string::StringExecFns;
use crate::text::{find_char, starts_with_str};

#[derive(Debug, Clone, Copy, PartialEq, Eq, Structural)]
pub enum ParseAcctUriError {
    InvalidScheme,
    MissingAt,
    MissingUser,
    MissingHost,
}

/// An `acct` URI: a user name together with the host that owns it.
#[derive(Debug, Clone)]
pub struct AcctUri {
    pub user: String,
    pub host: String,
}

/// The mathematical value of an [`AcctUri`].
pub struct AcctUriModel {
    pub user: Seq<char>,
    pub host: Seq<char>,
}

impl View for AcctUri {
    type V = AcctUriModel;

    open spec fn view(&self) -> AcctUriModel {
        AcctUriModel { user: self.user@, host: self.host@ }
    }
}

/// True when `s` holds `c` somewhere.
pub open spec fn has_char(s: Seq<char>, c: char) -> bool {
    exists|i: int| 0 <= i < s.len() && s[i] == c
}

/// True when `i` is the position of the first `c` in `s`.
pub open spec fn is_first_of(s: Seq<char>, c: char, i: int) -> bool {
    &&& 0 <= i < s.len()
    &&& s[i] == c
    &&& forall|j: int| 0 <= j < i ==> s[j] != c
}

/// The position of the first `c` in `s`; meaningful only when `has_char(s, c)`.
pub open spec fn first_of(s: Seq<char>, c: char) -> int {
    choose|i: int| is_first_of(s, c, i)
}

pub proof fn lemma_first_of_exists(s: Seq<char>, c: char)
    requires
        has_char(s, c),
    ensures
        is_first_of(s, c, first_of(s, c)),
    decreases s.len(),
{
    if s.len() > 0 && s[0] == c {
        assert(is_first_of(s, c, 0));
    } else {
        let w = choose|i: int| 0 <= i < s.len() && s[i] == c;
        assert(s.skip(1)[w - 1] == c);
        lemma_first_of_exists(s.skip(1), c);
        let i = first_of(s.skip(1), c);
        assert(s[i + 1] == s.skip(1)[i]);
        assert(forall|j: int| 0 < j < i + 1 ==> #[trigger] s[j] == s.skip(1)[j - 1]);
        assert(is_first_of(s, c, i + 1));
    }
}

pub proof fn lemma_first_of_unique(s: Seq<char>, c: char, i: int, j: int)
    requires
        is_first_of(s, c, i),
        is_first_of(s, c, j),
    ensures
        i == j,
{
}

/// What parsing an `acct` URI text yields, as a mathematical function.
pub open spec fn spec_parse(s: Seq<char>) -> Result<AcctUriModel, ParseAcctUriError> {
    if !(s.len() >= 5 && s.subrange(0, 5) == "acct:"@) {
        Err(ParseAcctUriError::InvalidScheme)
    } else {
        let rest = s.skip(5);
        let body = if rest.len() > 0 && rest[0] == '@' {
            rest.skip(1)
        } else {
            rest
        };
        if !has_char(body, '@') {
            Err(ParseAcctUriError::MissingAt)
        } else {
            let i = first_of(body, '@');
            let user = body.take(i);
            let host = body.skip(i + 1);
            if user.len() == 0 {
                Err(ParseAcctUriError::MissingUser)
            } else if host.len() == 0 {
                Err(ParseAcctUriError::MissingHost)
            } else {
                Ok(AcctUriModel { user, host })
            }
        }
    }
}

/// The text form `acct:{user}@{host}`.
pub open spec fn spec_format(m: AcctUriModel) -> Seq<char> {
    "acct:"@ + m.user + "@"@ + m.host
}

impl AcctUri {
    /// Parse the `acct:[@]user@host` form.
    pub fn parse(s: &str) -> (r: Result<AcctUri, ParseAcctUriError>)
        ensures
            match r {
                Ok(u) => spec_parse(s@) == Ok::<AcctUriModel, ParseAcctUriError>(u@),
                Err(e) => spec_parse(s@) == Err::<AcctUriModel, ParseAcctUriError>(e),
            },
    {
        proof {
            reveal_strlit("acct:");
        }
        if !starts_with_str(s, "acct:") {
            return Err(ParseAcctUriError::InvalidScheme);
        }
        let len = s.unicode_len();
        let rest = s.substring_char(5, len);
        assert(rest@ =~= s@.skip(5));
        let body = if rest.unicode_len() > 0 && rest.get_char(0) == '@' {
            let b = rest.substring_char(1, rest.unicode_len());
            assert(b@ =~= rest@.skip(1));
            b
        } else {
            rest
        };
        match find_char(body, '@') {
            None => Err(ParseAcctUriError::MissingAt),
            Some(i) => {
                proof {
                    assert(is_first_of(body@, '@', i as int));
                    lemma_first_of_exists(body@, '@');
                    lemma_first_of_unique(body@, '@', i as int, first_of(body@, '@'));
                }
                let blen = body.unicode_len();
                let user = body.substring_char(0, i);
                let host = body.substring_char(i + 1, blen);
                if user.unicode_len() == 0 {
                    Err(ParseAcctUriError::MissingUser)
                } else if host.unicode_len() == 0 {
                    Err(ParseAcctUriError::MissingHost)
                } else {
                    let uri = AcctUri { user: String::from_str(user), host: String::from_str(host) };
                    assert(uri@.user == body@.take(i as int));
                    assert(uri@.host == body@.skip(i as int + 1));
                    Ok(uri)
                }
            },
        }
    }

    /// Format as `acct:{user}@{host}`: the exact inverse of [`AcctUri::parse`].
    pub fn to_text(&self) -> (r: String)
        ensures
            r@ == spec_format(self@),
    {
        let mut out = String::from_str("acct:");
        out.append(self.user.as_str());
        out.append("@");
        out.append(self.host.as_str());
        out
    }
}

/// Formatting a parsed text gives the text back, provided the text did not use
/// the optional extra `@` after the scheme.
pub proof fn lemma_format_parse_round_trip(s: Seq<char>)
    requires
        spec_parse(s) is Ok,
        5 < s.len(),
        s[5] != '@',
    ensures
        spec_format(spec_parse(s)->Ok_0) == s,
{
    reveal_strlit("acct:");
    reveal_strlit("@");
    let rest = s.skip(5);
    assert(rest[0] == s[5]);
    let body = rest;
    lemma_first_of_exists(body, '@');
    let i = first_of(body, '@');
    let m = spec_parse(s)->Ok_0;
    assert(m.user == body.take(i));
    assert(m.host == body.skip(i + 1));
    assert(spec_format(m) =~= s);
}

/// Parsing a formatted URI gives the URI back, for any user and host that the
/// grammar can carry: both nonempty, and no `@` inside the user.
pub proof fn lemma_parse_of_format(m: AcctUriModel)
    requires
        m.user.len() > 0,
        m.host.len() > 0,
        !has_char(m.user, '@'),
    ensures
        spec_parse(spec_format(m)) == Ok::<AcctUriModel, ParseAcctUriError>(m),
{
    reveal_strlit("acct:");
    reveal_strlit("@");
    let s = spec_format(m);
    assert(s.subrange(0, 5) =~= "acct:"@);
    let rest = s.skip(5);
    assert(rest =~= m.user + "@"@ + m.host);
    assert(rest[0] == m.user[0]);
    assert(rest[0] != '@');
    let body = rest;
    let k = m.user.len() as int;
    assert(body[k] == '@');
    assert(forall|j: int| 0 <= j < k ==> body[j] == m.user[j]);
    assert(is_first_of(body, '@', k));
    assert(has_char(body, '@'));
    lemma_first_of_exists(body, '@');
    lemma_first_of_unique(body, '@', k, first_of(body, '@'));
    assert(body.take(k) =~= m.user);
    assert(body.skip(k + 1) =~= m.host);
}

} // verus!
