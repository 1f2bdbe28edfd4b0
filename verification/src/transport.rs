//! Request plans for the HTTP transport.
//!
//! The library does not open connections itself: it builds a
//! `RequestPlan` — method, percent-encoded URL, headers, timeout,
//! redirect policy — and the surrounding application sends it with its
//! HTTP client and hands back the response as plain values.

use vstd::prelude::*;

use crate::text::push_char;

verus! {

/// HTTP method of a request plan.
#[derive(Clone, Copy, Debug, PartialEq, Eq, Structural)]
pub enum HttpMethod {
    Get,
    Post,
}

/// What one character of a URL becomes on the wire: a space is sent as
/// `%20`, every other character as itself.
pub open spec fn encode_char(c: char) -> Seq<char> {
    if c == ' ' {
        seq!['%', '2', '0']
    } else {
        seq![c]
    }
}

/// A URL with every space percent-encoded.
pub open spec fn encode_spaces(s: Seq<char>) -> Seq<char>
    decreases s.len(),
{
    if s.len() == 0 {
        Seq::empty()
    } else {
        encode_spaces(s.drop_last()) + encode_char(s.last())
    }
}

/// No percent-encoded URL contains a space: every character of the
/// encoding of any URL differs from `' '`.
pub proof fn lemma_encoded_url_has_no_space(s: Seq<char>)
    ensures
        forall|i: int| 0 <= i < encode_spaces(s).len() ==> encode_spaces(s)[i] != ' ',
    decreases s.len(),
{
    if s.len() > 0 {
        lemma_encoded_url_has_no_space(s.drop_last());
        let pre = encode_spaces(s.drop_last());
        let tail = encode_char(s.last());
        assert forall|i: int| 0 <= i < encode_spaces(s).len() implies encode_spaces(s)[i]
            != ' ' by {
            if i < pre.len() {
                assert(encode_spaces(s)[i] == pre[i]);
            } else {
                assert(encode_spaces(s)[i] == tail[i - pre.len()]);
            }
        }
    }
}

/// A URL without spaces is sent exactly as given.
pub proof fn lemma_encoding_keeps_spaceless_url(s: Seq<char>)
    requires
        forall|i: int| 0 <= i < s.len() ==> s[i] != ' ',
    ensures
        encode_spaces(s) == s,
    decreases s.len(),
{
    if s.len() == 0 {
        assert(encode_spaces(s) =~= s);
    } else {
        lemma_encoding_keeps_spaceless_url(s.drop_last());
        assert(encode_spaces(s) =~= s);
    }
}

/// Percent-encodes the spaces of a URL, leaving every other character in
/// place.
pub fn percent_encode_spaces(url: &str) -> (r: String)
    ensures
        r@ == encode_spaces(url@),
{
    let n = url.unicode_len();
    let mut out = String::new();
    let mut i: usize = 0;
    while i < n
        invariant
            0 <= i <= n,
            n == url@.len(),
            out@ == encode_spaces(url@.subrange(0, i as int)),
        decreases n - i,
    {
        let c = url.get_char(i);
        if c == ' ' {
            push_char(&mut out, '%');
            push_char(&mut out, '2');
            push_char(&mut out, '0');
        } else {
            push_char(&mut out, c);
        }
        proof {
            let s1 = url@.subrange(0, i as int + 1);
            assert(s1.drop_last() =~= url@.subrange(0, i as int));
            assert(out@ =~= encode_spaces(s1.drop_last()) + encode_char(s1.last()));
        }
        i = i + 1;
    }
    proof {
        assert(url@.subrange(0, n as int) =~= url@);
    }
    out
}

/// A single HTTP request, ready to be sent: the transport sends `method`
/// to `url` with `headers` attached, bounds the whole request by
/// `timeout_secs` when one is given, and follows redirects exactly when
/// `follow_redirects` holds.
pub struct RequestPlan {
    pub method: HttpMethod,
    pub url: String,
    pub headers: Vec<(String, String)>,
    pub timeout_secs: Option<u64>,
    pub follow_redirects: bool,
}

/// Plans a GET request: the URL's spaces are percent-encoded before
/// transmission, the given headers and timeout are attached unchanged,
/// and the client's default redirect policy is kept.
pub fn prepare_request(url: &str, headers: Vec<(String, String)>, timeout_secs: Option<u64>) -> (r:
    RequestPlan)
    ensures
        r.method == HttpMethod::Get,
        r.url@ == encode_spaces(url@),
        r.headers == headers,
        r.timeout_secs == timeout_secs,
        !r.follow_redirects,
{
    RequestPlan {
        method: HttpMethod::Get,
        url: percent_encode_spaces(url),
        headers,
        timeout_secs,
        follow_redirects: false,
    }
}

/// Plans a JSON POST: the URL is sent as given, a
/// `content-type: application/json` header is set first, and the given
/// headers follow it unchanged. The application serializes the payload
/// to the body itself.
pub fn prepare_post_json(url: &str, headers: Vec<(String, String)>, timeout_secs: Option<u64>) -> (
    r: RequestPlan)
    ensures
        r.method == HttpMethod::Post,
        r.url@ == url@,
        r.headers@.len() == headers@.len() + 1,
        r.headers@[0].0@ == "content-type"@,
        r.headers@[0].1@ == "application/json"@,
        forall|i: int| 0 <= i < headers@.len() ==> r.headers@[i + 1] == headers@[i],
        r.timeout_secs == timeout_secs,
        !r.follow_redirects,
{
    let mut hs: Vec<(String, String)> = Vec::new();
    hs.push((String::from_str("content-type"), String::from_str("application/json")));
    let mut rest = headers;
    hs.append(&mut rest);
    RequestPlan {
        method: HttpMethod::Post,
        url: String::from_str(url),
        headers: hs,
        timeout_secs,
        follow_redirects: false,
    }
}

/// Plans the GET of a file download: spaces in the URL are
/// percent-encoded, an `ACCEPT: application/octet-stream` hint is the
/// only header, no timeout bounds the transfer, and redirects are
/// followed transparently.
pub fn prepare_download_request(url: &str) -> (r: RequestPlan)
    ensures
        r.method == HttpMethod::Get,
        r.url@ == encode_spaces(url@),
        r.headers@.len() == 1,
        r.headers@[0].0@ == "ACCEPT"@,
        r.headers@[0].1@ == "application/octet-stream"@,
        r.timeout_secs is None,
        r.follow_redirects,
{
    let mut hs: Vec<(String, String)> = Vec::new();
    hs.push((String::from_str("ACCEPT"), String::from_str("application/octet-stream")));
    RequestPlan {
        method: HttpMethod::Get,
        url: percent_encode_spaces(url),
        headers: hs,
        timeout_secs: Option::None,
        follow_redirects: true,
    }
}

} // verus!
