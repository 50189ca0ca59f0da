//! Method model: the closed set of supported HTTP methods and the parser
//! that turns a free-form label into one of them.
//!
//! Matching folds ASCII case first, so `"GET"`, `"get"` and `"Get"` all name
//! the same method; any label outside the supported set is rejected.

use vstd::prelude::*;

use crate::chars::{lower_char_x, lower_seq};
use crate::error::BuildError;

verus! {

/// The closed set of supported HTTP methods.
#[derive(Clone, Copy, PartialEq, Eq, Structural, Debug)]
pub enum RequestMethod {
    Get,
    Post,
    Put,
    Patch,
    Delete,
    Head,
    Options,
}

/// Which method, if any, a label names once ASCII case is folded away.
pub open spec fn method_of(label: Seq<char>) -> Option<RequestMethod> {
    let l = lower_seq(label);
    if l == "get"@ {
        Some(RequestMethod::Get)
    } else if l == "post"@ {
        Some(RequestMethod::Post)
    } else if l == "put"@ {
        Some(RequestMethod::Put)
    } else if l == "patch"@ {
        Some(RequestMethod::Patch)
    } else if l == "delete"@ {
        Some(RequestMethod::Delete)
    } else if l == "head"@ {
        Some(RequestMethod::Head)
    } else if l == "options"@ {
        Some(RequestMethod::Options)
    } else {
        None
    }
}

impl RequestMethod {
    /// The canonical upper-case token of this method, as sent on the wire.
    pub open spec fn spec_token(self) -> Seq<char> {
        match self {
            RequestMethod::Get => "GET"@,
            RequestMethod::Post => "POST"@,
            RequestMethod::Put => "PUT"@,
            RequestMethod::Patch => "PATCH"@,
            RequestMethod::Delete => "DELETE"@,
            RequestMethod::Head => "HEAD"@,
            RequestMethod::Options => "OPTIONS"@,
        }
    }

    /// The canonical upper-case token of this method.
    pub fn token(self) -> (r: &'static str)
        ensures
            r@ == self.spec_token(),
    {
        match self {
            RequestMethod::Get => "GET",
            RequestMethod::Post => "POST",
            RequestMethod::Put => "PUT",
            RequestMethod::Patch => "PATCH",
            RequestMethod::Delete => "DELETE",
            RequestMethod::Head => "HEAD",
            RequestMethod::Options => "OPTIONS",
        }
    }

    /// Parses a method label, folding ASCII case; exactly the labels whose
    /// case-folded form is a supported method token are accepted, and every
    /// other label is rejected as `InvalidMethod`.
    pub fn parse(label: &str) -> (r: Result<RequestMethod, BuildError>)
        ensures
            method_of(label@) matches Some(m) ==> r == Ok::<RequestMethod, BuildError>(m),
            method_of(label@) is None ==> r == Err::<RequestMethod, BuildError>(
                BuildError::InvalidMethod,
            ),
    {
        if eq_lower(label, "get") {
            Ok(RequestMethod::Get)
        } else if eq_lower(label, "post") {
            Ok(RequestMethod::Post)
        } else if eq_lower(label, "put") {
            Ok(RequestMethod::Put)
        } else if eq_lower(label, "patch") {
            Ok(RequestMethod::Patch)
        } else if eq_lower(label, "delete") {
            Ok(RequestMethod::Delete)
        } else if eq_lower(label, "head") {
            Ok(RequestMethod::Head)
        } else if eq_lower(label, "options") {
            Ok(RequestMethod::Options)
        } else {
            Err(BuildError::InvalidMethod)
        }
    }
}

/// Every supported method's canonical token is itself a supported label:
/// parsing the token of a method yields that method back.
pub proof fn lemma_token_parses_back(m: RequestMethod)
    ensures
        method_of(m.spec_token()) == Some(m),
{
    reveal_strlit("get");
    reveal_strlit("post");
    reveal_strlit("put");
    reveal_strlit("patch");
    reveal_strlit("delete");
    reveal_strlit("head");
    reveal_strlit("options");
    reveal_strlit("GET");
    reveal_strlit("POST");
    reveal_strlit("PUT");
    reveal_strlit("PATCH");
    reveal_strlit("DELETE");
    reveal_strlit("HEAD");
    reveal_strlit("OPTIONS");
    match m {
        RequestMethod::Get => {
            assert(lower_seq("GET"@) =~= "get"@);
        },
        RequestMethod::Post => {
            assert(lower_seq("POST"@) =~= "post"@);
        },
        RequestMethod::Put => {
            assert(lower_seq("PUT"@) =~= "put"@);
            assert("put"@[0] != "get"@[0]);
        },
        RequestMethod::Patch => {
            assert(lower_seq("PATCH"@) =~= "patch"@);
        },
        RequestMethod::Delete => {
            assert(lower_seq("DELETE"@) =~= "delete"@);
        },
        RequestMethod::Head => {
            assert(lower_seq("HEAD"@) =~= "head"@);
            assert("head"@[0] != "post"@[0]);
        },
        RequestMethod::Options => {
            assert(lower_seq("OPTIONS"@) =~= "options"@);
        },
    }
}

/// Whether the ASCII-case-folded form of `s` equals `t` (which callers pass
/// already lower-case).
fn eq_lower(s: &str, t: &str) -> (r: bool)
    ensures
        r == (lower_seq(s@) == t@),
{
    let n = s.unicode_len();
    let m = t.unicode_len();
    if n != m {
        assert(lower_seq(s@).len() == s@.len());
        return false;
    }
    let mut i: usize = 0;
    while i < n
        invariant
            i <= n,
            n == s@.len(),
            n == t@.len(),
            forall|j: int| 0 <= j < i ==> lower_seq(s@)[j] == t@[j],
        decreases n - i,
    {
        let c = s.get_char(i);
        let d = t.get_char(i);
        if lower_char_x(c) != d {
            assert(lower_seq(s@)[i as int] != t@[i as int]);
            return false;
        }
        i = i + 1;
    }
    assert(lower_seq(s@) =~= t@);
    true
}

} // verus!
