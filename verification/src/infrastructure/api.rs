//! How requests to the EMSYS API are addressed and authenticated, and how its
//! error replies are read.
use vstd::prelude::*;

use crate::text::{chars_of, string_of_range};

verus! {

/// The header that names the company a request is made for.
pub fn company_header() -> (r: &'static str)
    ensures
        r@ == "x-company-id"@,
{
    "x-company-id"
}

/// `s` without the `c` characters at its end.
pub open spec fn strip_end(s: Seq<char>, c: char) -> Seq<char>
    decreases s.len(),
{
    if s.len() > 0 && s.last() == c {
        strip_end(s.drop_last(), c)
    } else {
        s
    }
}

/// `s` without the `c` characters at its start.
pub open spec fn strip_start(s: Seq<char>, c: char) -> Seq<char>
    decreases s.len(),
{
    if s.len() > 0 && s[0] == c {
        strip_start(s.drop_first(), c)
    } else {
        s
    }
}

proof fn lemma_strip_end_take(s: Seq<char>, c: char, n: int)
    requires
        0 <= n <= s.len(),
        forall|k: int| n <= k < s.len() ==> s[k] == c,
    ensures
        strip_end(s, c) == strip_end(s.take(n), c),
    decreases s.len() - n,
{
    if n < s.len() {
        assert(s.drop_last() =~= s.take(s.len() - 1));
        lemma_strip_end_take(s.drop_last(), c, n);
        assert(s.drop_last().take(n) =~= s.take(n));
    } else {
        assert(s.take(n) =~= s);
    }
}

proof fn lemma_strip_start_skip(s: Seq<char>, c: char, n: int)
    requires
        0 <= n <= s.len(),
        forall|k: int| 0 <= k < n ==> s[k] == c,
    ensures
        strip_start(s, c) == strip_start(s.skip(n), c),
    decreases n,
{
    if n > 0 {
        lemma_strip_start_skip(s, c, n - 1);
        assert(s.skip(n - 1).drop_first() =~= s.skip(n));
    } else {
        assert(s.skip(0) =~= s);
    }
}

/// The base address of the API: the configured address without trailing `/`.
pub fn api_base_url(api_url: &str) -> (r: String)
    ensures
        r@ == strip_end(api_url@, '/'),
{
    let v = chars_of(api_url);
    let mut n = v.len();
    while n > 0 && v[n - 1] == '/'
        invariant
            n <= v.len(),
            v@ == api_url@,
            forall|k: int| n <= k < v.len() ==> v@[k] == '/',
        decreases n,
    {
        n = n - 1;
    }
    proof {
        lemma_strip_end_take(v@, '/', n as int);
        assert(n > 0 ==> v@.take(n as int).last() != '/');
    }
    string_of_range(&v, 0, n)
}

/// The address of an API path: the base address, `/v1/`, and the path without
/// its leading `/`.
pub fn request_url(base_url: &str, path: &str) -> (r: String)
    ensures
        r@ == base_url@ + "/v1/"@ + strip_start(path@, '/'),
{
    let v = chars_of(path);
    let mut n: usize = 0;
    while n < v.len() && v[n] == '/'
        invariant
            n <= v.len(),
            v@ == path@,
            forall|k: int| 0 <= k < n ==> v@[k] == '/',
        decreases v.len() - n,
    {
        n = n + 1;
    }
    proof {
        lemma_strip_start_skip(v@, '/', n as int);
        assert(n < v.len() ==> v@.skip(n as int)[0] != '/');
    }
    let rest = string_of_range(&v, n, v.len());
    assert(rest@ == v@.skip(n as int));
    let mut r = String::from_str(base_url);
    r.append("/v1/");
    r.append(rest.as_str());
    r
}

/// The `authorization` header value that carries an id token.
pub fn bearer_value(id_token: &str) -> (r: String)
    ensures
        r@ == "Bearer "@ + id_token@,
{
    let mut r = String::from_str("Bearer ");
    r.append(id_token);
    r
}

/// The body of an API error reply, as far as it could be read.
#[derive(Debug, PartialEq, Eq)]
pub struct ApiErrorResponse {
    pub message: String,
    pub error: String,
}

/// The message of an API error reply: its `error`, else its `message`, else
/// `fallback` when both are empty or the body could not be read.
pub open spec fn spec_response_message(body: Option<ApiErrorResponse>, fallback: Seq<char>) -> Seq<
    char,
> {
    match body {
        Some(b) => if b.error@.len() > 0 {
            b.error@
        } else if b.message@.len() > 0 {
            b.message@
        } else {
            fallback
        },
        None => fallback,
    }
}

/// The message of an API error reply.
pub fn response_message(body: Option<ApiErrorResponse>, fallback: &str) -> (r: String)
    ensures
        r@ == spec_response_message(body, fallback@),
{
    match body {
        Some(b) => {
            if !b.error.as_str().is_empty() {
                b.error
            } else if !b.message.as_str().is_empty() {
                b.message
            } else {
                String::from_str(fallback)
            }
        },
        None => String::from_str(fallback),
    }
}

} // verus!
