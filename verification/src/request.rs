//! Request model and builder. A `Request` is the user's intent: a URL as
//! typed, a method, a body (always present, possibly empty, on any method
//! by design) and a header map. `build_request` validates the intent and
//! assembles a `TransportRequest`, the transport-ready object; it touches
//! no network, so a validation failure never causes network activity.

use vstd::prelude::*;

use crate::error::BuildError;
use crate::headers::Headers;
use crate::method::{method_of, RequestMethod};
use crate::url::{check_url, url_wf};
use vstd::string::StrSliceExecFns;

verus! {

/// A character allowed in a header name: the HTTP token characters.
pub open spec fn token_char(c: char) -> bool {
    ||| ('a' <= c && c <= 'z')
    ||| ('A' <= c && c <= 'Z')
    ||| ('0' <= c && c <= '9')
    ||| c == '!'
    ||| c == '#'
    ||| c == '$'
    ||| c == '%'
    ||| c == '&'
    ||| c == '\''
    ||| c == '*'
    ||| c == '+'
    ||| c == '-'
    ||| c == '.'
    ||| c == '^'
    ||| c == '_'
    ||| c == '`'
    ||| c == '|'
    ||| c == '~'
}

/// A character allowed in a header value: visible ASCII, space or tab.
pub open spec fn value_char(c: char) -> bool {
    c == '\t' || (' ' <= c && c <= '~')
}

/// A well-formed header name: non-empty, token characters only.
pub open spec fn header_name_wf(s: Seq<char>) -> bool {
    s.len() > 0 && (forall|i: int| 0 <= i < s.len() ==> token_char(#[trigger] s[i]))
}

/// A well-formed header value: allowed characters only (may be empty).
pub open spec fn header_value_wf(s: Seq<char>) -> bool {
    forall|i: int| 0 <= i < s.len() ==> value_char(#[trigger] s[i])
}

/// Every entry of the header sequence has a well-formed name and value.
pub open spec fn headers_syntax_wf(s: Seq<(Seq<char>, Seq<char>)>) -> bool {
    forall|i: int|
        0 <= i < s.len() ==> header_name_wf((#[trigger] s[i]).0) && header_value_wf(s[i].1)
}

/// Decides `token_char`.
pub fn check_token_char(c: char) -> (r: bool)
    ensures
        r == token_char(c),
{
    ('a' <= c && c <= 'z') || ('A' <= c && c <= 'Z') || ('0' <= c && c <= '9') || c == '!' || c
        == '#' || c == '$' || c == '%' || c == '&' || c == '\'' || c == '*' || c == '+' || c == '-'
        || c == '.' || c == '^' || c == '_' || c == '`' || c == '|' || c == '~'
}

/// Decides `header_name_wf` for a name given as text.
pub fn check_header_name(s: &str) -> (r: bool)
    ensures
        r == header_name_wf(s@),
{
    let n = s.unicode_len();
    if n == 0 {
        return false;
    }
    let mut i: usize = 0;
    while i < n
        invariant
            i <= n,
            n == s@.len(),
            forall|j: int| 0 <= j < i ==> token_char(#[trigger] s@[j]),
        decreases n - i,
    {
        if !check_token_char(s.get_char(i)) {
            assert(!token_char(s@[i as int]));
            return false;
        }
        i = i + 1;
    }
    true
}

/// Decides `header_value_wf` for a value given as text.
pub fn check_header_value(s: &str) -> (r: bool)
    ensures
        r == header_value_wf(s@),
{
    let n = s.unicode_len();
    let mut i: usize = 0;
    while i < n
        invariant
            i <= n,
            n == s@.len(),
            forall|j: int| 0 <= j < i ==> value_char(#[trigger] s@[j]),
        decreases n - i,
    {
        let c = s.get_char(i);
        if !(c == '\t' || (' ' <= c && c <= '~')) {
            assert(!value_char(s@[i as int]));
            return false;
        }
        i = i + 1;
    }
    true
}

/// One user-authored HTTP call intent, before validation.
#[derive(Debug)]
pub struct Request {
    /// The URL exactly as supplied; validated only by `build_request`.
    pub url: String,
    /// The already-parsed method.
    pub method: RequestMethod,
    /// The body text; always present, possibly empty, on any method.
    pub body: String,
    /// The header map; names unique up to ASCII case by construction.
    pub headers: Headers,
}

/// A validated, transport-ready request, consumed exactly once by a send.
#[derive(Debug)]
pub struct TransportRequest {
    /// The validated absolute URL.
    pub url: String,
    /// The method to send.
    pub method: RequestMethod,
    /// The body text; the wire carries its UTF-8 encoding.
    pub body: String,
    /// The validated header map.
    pub headers: Headers,
}

impl TransportRequest {
    /// The UTF-8 encoding of the body, as sent on the wire.
    pub fn body_bytes(&self) -> (r: Vec<u8>)
        ensures
            r@ == vstd::utf8::encode_utf8(self.body@),
    {
        self.body.as_str().as_bytes_vec()
    }
}

/// Validates a `Request` and assembles the transport-ready object.
///
/// Checks run in order: the URL must be a well-formed absolute URL, then
/// every header must satisfy the header syntax rules. On success the
/// result carries the same URL, method and body and exactly the entries
/// of the source header map. No network activity happens here.
pub fn build_request(r: &Request) -> (res: Result<TransportRequest, BuildError>)
    requires
        r.headers.wf(),
    ensures
        !url_wf(r.url@) ==> res == Err::<TransportRequest, BuildError>(BuildError::InvalidUrl),
        url_wf(r.url@) && !headers_syntax_wf(r.headers@) ==> res == Err::<
            TransportRequest,
            BuildError,
        >(BuildError::InvalidHeader),
        url_wf(r.url@) && headers_syntax_wf(r.headers@) ==> (res matches Ok(tr) && tr.url@
            == r.url@ && tr.method == r.method && tr.body@ == r.body@ && tr.headers@ == r.headers@
            && tr.headers.wf()),
{
    if !check_url(r.url.as_str()) {
        return Err(BuildError::InvalidUrl);
    }
    let hn = r.headers.len();
    let mut i: usize = 0;
    while i < hn
        invariant
            i <= hn,
            hn == r.headers@.len(),
            r.headers.wf(),
            url_wf(r.url@),
            forall|j: int|
                0 <= j < i ==> header_name_wf((#[trigger] r.headers@[j]).0) && header_value_wf(
                    r.headers@[j].1,
                ),
        decreases hn - i,
    {
        if !check_header_name(r.headers.name_at(i).as_str()) {
            assert(!header_name_wf(r.headers@[i as int].0));
            return Err(BuildError::InvalidHeader);
        }
        if !check_header_value(r.headers.value_at(i).as_str()) {
            assert(!header_value_wf(r.headers@[i as int].1));
            return Err(BuildError::InvalidHeader);
        }
        i = i + 1;
    }
    Ok(
        TransportRequest {
            url: r.url.clone(),
            method: r.method,
            body: r.body.clone(),
            headers: r.headers.duplicate(),
        },
    )
}

/// The verified core of one send action: parses the method label, then
/// assembles and validates the request from the raw values the caller
/// supplies. The method is checked first, so an unrecognized label is
/// rejected before anything else, as `InvalidMethod`.
pub fn prepare(url: String, method_label: &str, body: String, headers: Headers) -> (res: Result<
    TransportRequest,
    BuildError,
>)
    requires
        headers.wf(),
    ensures
        method_of(method_label@) is None ==> res == Err::<TransportRequest, BuildError>(
            BuildError::InvalidMethod,
        ),
        method_of(method_label@) is Some && !url_wf(url@) ==> res == Err::<
            TransportRequest,
            BuildError,
        >(BuildError::InvalidUrl),
        method_of(method_label@) is Some && url_wf(url@) && !headers_syntax_wf(headers@) ==> res
            == Err::<TransportRequest, BuildError>(BuildError::InvalidHeader),
        method_of(method_label@) matches Some(m) ==> ((url_wf(url@) && headers_syntax_wf(headers@))
            ==> (res matches Ok(tr) && tr.url@ == url@ && tr.method == m && tr.body@ == body@
            && tr.headers@ == headers@ && tr.headers.wf())),
{
    let method = match RequestMethod::parse(method_label) {
        Ok(m) => m,
        Err(e) => {
            return Err(e);
        },
    };
    let request = Request { url, method, body, headers };
    build_request(&request)
}

} // verus!
