//! Outbound HTTP requests as plain values: the library decides what to send,
//! the program around it sends it and hands back the response body.
use vstd::prelude::*;
use vstd::utf8::{decode_utf8, valid_utf8};

verus! {

#[derive(Clone, Copy, Debug, PartialEq, Eq, Structural)]
pub enum HttpVerb {
    GET,
    POST,
}

/// One request: method, absolute URL, header lines as (name, value), and an optional body.
pub struct HttpRequest {
    pub verb: HttpVerb,
    pub url: String,
    pub headers: Vec<(String, String)>,
    pub body: Option<String>,
}

pub open spec fn headers_view(headers: Seq<(String, String)>) -> Seq<(Seq<char>, Seq<char>)> {
    headers.map_values(|h: (String, String)| (h.0@, h.1@))
}

/// A `(name, value)` pair of owned strings.
pub fn text_pair(name: &str, value: &str) -> (r: (String, String))
    ensures
        r.0@ == name@,
        r.1@ == value@,
{
    (name.to_owned(), value.to_owned())
}

/// `first` followed by `second`.
pub fn concat2(first: &str, second: &str) -> (r: String)
    ensures
        r@ == first@ + second@,
{
    let mut s = first.to_owned();
    s.append(second);
    s
}

/// What can go wrong while a service request is built or its response read.
#[derive(Clone, Copy, Debug, PartialEq, Eq, Structural)]
pub enum ClientError {
    /// Query parameters could not be form-encoded.
    EncodingError,
    /// The configuration holds no access token.
    MissingAccessToken,
    /// No file name was given and the response named none in UTF-8.
    FailedSetFilename,
    /// The response did not say how long its content is.
    FailedContentLength,
    /// A different number of bytes arrived than the response announced.
    SizeMismatch { written: u64, expected: u64 },
    /// A response body or member did not have the expected shape.
    DeserializationError,
    /// A time was not a whole number of seconds, or out of range.
    InvalidTime,
}

/// The `Authorization` header value for an access token.
pub open spec fn bearer_of(token: Seq<char>) -> Seq<char> {
    "Bearer "@ + token
}

pub fn bearer(token: &str) -> (r: String)
    ensures
        r@ == bearer_of(token@),
{
    concat2("Bearer ", token)
}

pub open spec fn digit_char(d: nat) -> char {
    if d == 0 { '0' } else if d == 1 { '1' } else if d == 2 { '2' } else if d == 3 { '3' } else if d == 4 { '4' }
    else if d == 5 { '5' } else if d == 6 { '6' } else if d == 7 { '7' } else if d == 8 { '8' } else { '9' }
}

/// `n` in decimal digits, without sign or leading zeros.
pub open spec fn decimal_of(n: nat) -> Seq<char>
    decreases n,
{
    if n < 10 {
        seq![digit_char(n)]
    } else {
        decimal_of(n / 10).push(digit_char(n % 10))
    }
}

/// The text of one decimal digit.
fn digit_text(d: u64) -> (r: &'static str)
    requires
        d < 10,
    ensures
        r@ == seq![digit_char(d as nat)],
{
    proof {
        reveal_strlit("0");
        reveal_strlit("1");
        reveal_strlit("2");
        reveal_strlit("3");
        reveal_strlit("4");
        reveal_strlit("5");
        reveal_strlit("6");
        reveal_strlit("7");
        reveal_strlit("8");
        reveal_strlit("9");
    }
    let r = if d == 0 { "0" } else if d == 1 { "1" } else if d == 2 { "2" } else if d == 3 { "3" } else if d == 4 {
        "4"
    } else if d == 5 { "5" } else if d == 6 { "6" } else if d == 7 { "7" } else if d == 8 { "8" } else { "9" };
    assert(r@ =~= seq![digit_char(d as nat)]);
    r
}

/// `n` in decimal, as `u64`'s `Display` writes it.
pub fn decimal(n: u64) -> (r: String)
    ensures
        r@ == decimal_of(n as nat),
{
    let mut low_first: Vec<u64> = Vec::new();
    let mut m: u64 = n;
    let ghost mut suffix: Seq<char> = Seq::empty();
    while m >= 10
        invariant
            decimal_of(n as nat) == decimal_of(m as nat) + suffix,
            suffix.len() == low_first@.len(),
            forall|k: int| 0 <= k < low_first@.len() ==> #[trigger] low_first@[k] < 10 && suffix[suffix.len() - 1 - k]
                == digit_char(low_first@[k] as nat),
        decreases m,
    {
        let d = m % 10;
        proof {
            assert(decimal_of(m as nat) == decimal_of((m / 10) as nat).push(digit_char(d as nat)));
            assert(decimal_of((m / 10) as nat).push(digit_char(d as nat)) + suffix =~= decimal_of((m / 10) as nat) + (
            seq![digit_char(d as nat)] + suffix));
            suffix = seq![digit_char(d as nat)] + suffix;
        }
        low_first.push(d);
        m = m / 10;
    }
    let mut out = digit_text(m).to_owned();
    assert(decimal_of(m as nat) == seq![digit_char(m as nat)]);
    let mut i: usize = low_first.len();
    while i > 0
        invariant
            i <= low_first@.len(),
            suffix.len() == low_first@.len(),
            forall|k: int| 0 <= k < low_first@.len() ==> #[trigger] low_first@[k] < 10 && suffix[suffix.len() - 1 - k]
                == digit_char(low_first@[k] as nat),
            out@ == decimal_of(m as nat) + suffix.subrange(0, low_first@.len() - i),
        decreases i,
    {
        i = i - 1;
        let ghost done = suffix.subrange(0, low_first@.len() - i - 1);
        out.append(digit_text(low_first[i]));
        assert(suffix[low_first@.len() - 1 - i] == digit_char(low_first@[i as int] as nat));
        assert(suffix.subrange(0, low_first@.len() - i) =~= done.push(digit_char(low_first@[i as int] as nat)));
    }
    assert(suffix.subrange(0, suffix.len() as int) =~= suffix);
    out
}

/// Relies on `String::from_utf8`: it accepts exactly the valid UTF-8 byte sequences.
#[verifier::external_body]
pub(crate) fn utf8_text(bytes: Vec<u8>) -> (r: Option<String>)
    ensures
        r is Some <==> valid_utf8(bytes@),
        r is Some ==> r->Some_0@ == decode_utf8(bytes@),
{
    match String::from_utf8(bytes) {
        Ok(s) => Some(s),
        Err(_) => None,
    }
}

/// The headers every JSON exchange carries, ahead of any others.
pub open spec fn json_accept_headers() -> Seq<(Seq<char>, Seq<char>)> {
    seq![("Accept"@, "application/json"@), ("Content-Type"@, "application/json"@)]
}

/// A request that sends and expects JSON: the JSON headers, then `headers`.
pub fn curl_json(url: &str, verb: HttpVerb, headers: Option<&Vec<(String, String)>>, input: Option<String>) -> (r: HttpRequest)
    ensures
        r.verb == verb,
        r.url@ == url@,
        headers_view(r.headers@) == json_accept_headers() + match headers {
            Some(h) => headers_view(h@),
            None => Seq::empty(),
        },
        r.body == input,
{
    let mut all: Vec<(String, String)> = Vec::new();
    all.push(text_pair("Accept", "application/json"));
    all.push(text_pair("Content-Type", "application/json"));
    assert(headers_view(all@) =~= json_accept_headers());
    match headers {
        Some(h) => {
            let mut i: usize = 0;
            while i < h.len()
                invariant
                    i <= h@.len(),
                    headers_view(all@) =~= json_accept_headers() + headers_view(h@).subrange(0, i as int),
                decreases h@.len() - i,
            {
                let (name, value) = &h[i];
                let ghost before = all@;
                all.push(text_pair(name.as_str(), value.as_str()));
                assert(headers_view(all@) =~= headers_view(before).push(headers_view(h@)[i as int]));
                i = i + 1;
            }
            assert(headers_view(h@).subrange(0, h@.len() as int) =~= headers_view(h@));
        },
        None => {},
    }
    HttpRequest { verb, url: url.to_owned(), headers: all, body: input }
}

} // verus!
