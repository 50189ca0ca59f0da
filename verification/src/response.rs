//! Response normalization: the raw outcome of a successful send — status
//! code, raw header pairs and the fully drained body bytes — is turned
//! into a display-ready `Response`. The body is decoded as UTF-8, with
//! the replacement character standing in for invalid sequences; the whole
//! body is buffered in memory, which this client accepts by design.

use vstd::prelude::*;
use vstd::string::StringExecFns;

use crate::chars::{decimal_digits, u16_decimal};
use crate::headers::{collected, HeaderEntry, Headers};

verus! {

/// The normalized outcome of a successful send.
#[derive(Debug)]
pub struct Response {
    /// The numeric HTTP status code.
    pub status: u16,
    /// The response headers, collected with last-write-wins on
    /// case-folded names.
    pub headers: Headers,
    /// The response body as text, decoded from UTF-8 best-effort.
    pub body: String,
}

impl Response {
    /// The display-ready status-and-body text handed to the caller:
    /// the status line, a blank line, then the body.
    pub fn display_text(&self) -> (r: String)
        ensures
            r@ == "HTTP "@ + decimal_digits(self.status as nat) + "\n\n"@ + self.body@,
    {
        let mut s = String::from_str("HTTP ");
        let digits = u16_decimal(self.status);
        s.append(digits.as_str());
        s.append("\n\n");
        s.append(self.body.as_str());
        s
    }
}

/// The text that best-effort UTF-8 decoding yields for the given bytes;
/// a function of the bytes alone.
pub uninterp spec fn lossy_utf8(b: Seq<u8>) -> Seq<char>;

/// Relies on String::from_utf8_lossy: decodes the bytes as UTF-8, putting
/// the replacement character where a sequence is invalid; the result
/// depends on the bytes alone.
#[verifier::external_body]
fn decode_lossy(bytes: &Vec<u8>) -> (r: String)
    ensures
        r@ == lossy_utf8(bytes@),
{
    String::from_utf8_lossy(bytes.as_slice()).into_owned()
}

/// Builds the normalized `Response` from the raw parts of a drained
/// transport response: the status is copied, the header pairs are
/// collected into the header map first to last, and the body bytes are
/// decoded as UTF-8 best-effort.
pub fn normalize(status: u16, raw_headers: Vec<HeaderEntry>, body: Vec<u8>) -> (res: Response)
    ensures
        res.status == status,
        res.headers.wf(),
        res.headers@ == collected(raw_headers@.map_values(|e: HeaderEntry| e@)),
        res.body@ == lossy_utf8(body@),
{
    let headers = Headers::from_pairs(raw_headers);
    let text = decode_lossy(&body);
    Response { status, headers, body: text }
}

} // verus!
