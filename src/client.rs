use vstd::prelude::*;
use vstd::string::*;

use crate::error::SdkError;

verus! {

/// `k` starts with "bearer " written in any letter case.
pub open spec fn has_bearer_prefix(k: Seq<char>) -> bool {
    &&& k.len() >= 7
    &&& (k[0] == 'b' || k[0] == 'B')
    &&& (k[1] == 'e' || k[1] == 'E')
    &&& (k[2] == 'a' || k[2] == 'A')
    &&& (k[3] == 'r' || k[3] == 'R')
    &&& (k[4] == 'e' || k[4] == 'E')
    &&& (k[5] == 'r' || k[5] == 'R')
    &&& k[6] == ' '
}

/// The token that an API key stands for: the key without a leading "bearer ".
pub open spec fn token_of(k: Seq<char>) -> Seq<char> {
    if has_bearer_prefix(k) {
        k.subrange(7, k.len() as int)
    } else {
        k
    }
}

/// `s` ends with the path separator.
pub open spec fn ends_with_separator(s: Seq<char>) -> bool {
    s.len() > 0 && s.last() == '/'
}

/// The base URI with a trailing separator, added where it is missing.
pub open spec fn normalized_base(s: Seq<char>) -> Seq<char> {
    if ends_with_separator(s) {
        s
    } else {
        s.push('/')
    }
}

/// A base URI given with or without its trailing separator yields the same
/// endpoint URLs.
pub proof fn lemma_separator_optional(base: Seq<char>, path: Seq<char>)
    requires
        !ends_with_separator(base),
    ensures
        normalized_base(base) + path == normalized_base(base.push('/')) + path,
{
}

/// A key that starts with "bearer " in any letter case yields the rest of the
/// key, byte for byte, as its token.
pub proof fn lemma_bearer_prefix_removed(prefix: Seq<char>, token: Seq<char>)
    requires
        prefix.len() == 7,
        has_bearer_prefix(prefix),
    ensures
        token_of(prefix + token) == token,
{
    assert((prefix + token).subrange(7, (prefix + token).len() as int) =~= token);
}

/// A character that an HTTP header value may hold: a tab, a visible ASCII
/// character, a space, or any non-ASCII character (whose UTF-8 bytes are all
/// at least 0x80).
pub open spec fn header_char(c: char) -> bool {
    c == '\t' || (c >= ' ' && c != '\x7f')
}

pub open spec fn valid_header_text(s: Seq<char>) -> bool {
    forall|i: int| 0 <= i < s.len() ==> header_char(#[trigger] s[i])
}

/// Relies on reqwest::header::HeaderValue::from_str (from the http crate),
/// which accepts a string exactly when each of its bytes is a tab or at least
/// 0x20 and not 0x7f.
#[verifier::external_body]
fn header_value_accepts(s: &str) -> (r: bool)
    ensures
        r == valid_header_text(s@),
{
    reqwest::header::HeaderValue::from_str(s).is_ok()
}

/// Removes a leading "bearer " (any letter case) from an API key.
pub fn strip_bearer(key: &str) -> (r: String)
    ensures
        r@ == token_of(key@),
{
    let n = key.unicode_len();
    let prefixed = n >= 7
        && (key.get_char(0) == 'b' || key.get_char(0) == 'B')
        && (key.get_char(1) == 'e' || key.get_char(1) == 'E')
        && (key.get_char(2) == 'a' || key.get_char(2) == 'A')
        && (key.get_char(3) == 'r' || key.get_char(3) == 'R')
        && (key.get_char(4) == 'e' || key.get_char(4) == 'E')
        && (key.get_char(5) == 'r' || key.get_char(5) == 'R')
        && key.get_char(6) == ' ';
    if prefixed {
        String::from_str(key.substring_char(7, n))
    } else {
        String::from_str(key)
    }
}

/// Adds the trailing separator to a base URI where it is missing.
pub fn normalize_base(base: &str) -> (r: String)
    ensures
        r@ == normalized_base(base@),
{
    let n = base.unicode_len();
    let mut r = String::from_str(base);
    if n == 0 || base.get_char(n - 1) != '/' {
        r.append("/");
        proof {
            reveal_strlit("/");
            assert(r@ =~= base@.push('/'));
        }
    }
    r
}

/// What a client holds, as plain values.
pub struct ClientView {
    pub base_uri: Seq<char>,
    pub authorization: Option<Seq<char>>,
}

/// A client of the service: a base URI that ends with a separator and the
/// token sent as the `Authorization` header, if any. Every request carries
/// `Content-Type: application/json` as well.
pub struct AGiXTSDK {
    base_uri: String,
    authorization: Option<String>,
}

impl View for AGiXTSDK {
    type V = ClientView;

    closed spec fn view(&self) -> ClientView {
        ClientView {
            base_uri: self.base_uri@,
            authorization: match self.authorization {
                Some(t) => Some(t@),
                None => None,
            },
        }
    }
}

impl AGiXTSDK {
    pub open spec fn wf(&self) -> bool {
        &&& ends_with_separator(self@.base_uri)
        &&& (self@.authorization matches Some(t) ==> valid_header_text(t))
    }

    /// Makes a client for the service at `base_uri`. A supplied API key loses
    /// a leading "bearer " and is kept as the authorization token; it fails
    /// with `Config` where that token cannot be an HTTP header value.
    pub fn new(base_uri: &str, api_key: Option<&str>) -> (r: Result<AGiXTSDK, SdkError>)
        ensures
            match api_key {
                None => r matches Ok(c) && c@ == (ClientView {
                    base_uri: normalized_base(base_uri@),
                    authorization: None,
                }),
                Some(k) => if valid_header_text(token_of(k@)) {
                    r matches Ok(c) && c@ == (ClientView {
                        base_uri: normalized_base(base_uri@),
                        authorization: Some(token_of(k@)),
                    })
                } else {
                    r == Err::<AGiXTSDK, SdkError>(SdkError::Config)
                },
            },
            r matches Ok(c) ==> c.wf(),
    {
        let authorization = match api_key {
            None => None,
            Some(k) => {
                let token = strip_bearer(k);
                if !header_value_accepts(token.as_str()) {
                    return Err(SdkError::Config);
                }
                Some(token)
            },
        };
        let base = normalize_base(base_uri);
        Ok(AGiXTSDK { base_uri: base, authorization })
    }

    /// The URL of the endpoint at `path` under the base URI.
    pub fn endpoint(&self, path: &str) -> (r: String)
        ensures
            r@ == self@.base_uri + path@,
    {
        let mut r = self.base_uri.clone();
        r.append(path);
        r
    }

    /// The URL `head` then `name` under the base URI.
    pub fn endpoint_named(&self, head: &str, name: &str) -> (r: String)
        ensures
            r@ == self@.base_uri + head@ + name@,
    {
        let mut r = self.base_uri.clone();
        r.append(head);
        r.append(name);
        r
    }

    /// The URL `head`, `name`, `tail` under the base URI: an endpoint path
    /// with a name put in as it is.
    pub fn endpoint_with(&self, head: &str, name: &str, tail: &str) -> (r: String)
        ensures
            r@ == self@.base_uri + head@ + name@ + tail@,
    {
        let mut r = self.base_uri.clone();
        r.append(head);
        r.append(name);
        r.append(tail);
        r
    }

    /// The base URI, always ending with a separator.
    pub fn base_uri(&self) -> (r: &str)
        ensures
            r@ == self@.base_uri,
    {
        self.base_uri.as_str()
    }

    /// The value of the `Authorization` header, if one is sent.
    pub fn authorization(&self) -> (r: Option<&str>)
        ensures
            match r {
                Some(t) => self@.authorization == Some(t@),
                None => self@.authorization is None,
            },
    {
        match &self.authorization {
            Some(t) => Some(t.as_str()),
            None => None,
        }
    }
}

} // verus!
