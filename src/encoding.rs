//! Text encodings used on the wire: form-encoded query strings, base64
//! credentials, JSON string literals, and reading members of a JSON body.
use vstd::prelude::*;
use vstd::utf8::{encode_utf8, encode_utf8_decode_utf8, is_ascii_chars, is_ascii_chars_encode_utf8};

verus! {


/// The standard, padded base64 text of `bytes`.
pub uninterp spec fn base64_of(bytes: Seq<u8>) -> Seq<char>;

/// A lower-case hexadecimal digit.
pub open spec fn hex_lower(n: u32) -> char {
    if n < 10 {
        ((48 + n) as u8) as char
    } else {
        ((87 + n) as u8) as char
    }
}

/// One character inside a JSON string literal, as `serde_json` writes it:
/// quote, backslash and control characters escaped, all else as it is.
pub open spec fn json_escaped_char(c: char) -> Seq<char> {
    if c == '"' {
        seq!['\\', '"']
    } else if c == '\\' {
        seq!['\\', '\\']
    } else if c == '\u{8}' {
        seq!['\\', 'b']
    } else if c == '\t' {
        seq!['\\', 't']
    } else if c == '\n' {
        seq!['\\', 'n']
    } else if c == '\u{c}' {
        seq!['\\', 'f']
    } else if c == '\r' {
        seq!['\\', 'r']
    } else if (c as u32) < 32 {
        seq!['\\', 'u', '0', '0', hex_lower((c as u32) / 16), hex_lower((c as u32) % 16)]
    } else {
        seq![c]
    }
}

pub open spec fn json_escaped(s: Seq<char>) -> Seq<char>
    decreases s.len(),
{
    if s.len() == 0 {
        Seq::empty()
    } else {
        json_escaped_char(s[0]) + json_escaped(s.drop_first())
    }
}

/// The JSON string literal that `serde_json` writes for `s`.
pub open spec fn json_quoted_of(s: Seq<char>) -> Seq<char> {
    seq!['"'] + json_escaped(s) + seq!['"']
}

/// `s` with leading and trailing whitespace removed, as `str::trim` does it.
pub uninterp spec fn trimmed_of(s: Seq<char>) -> Seq<char>;

/// A member of a JSON object, as far as this library reads one.
pub enum JsonScalar {
    Text(String),
    /// A number that is a non-negative integer within 64 bits.
    Integer(u64),
    Flag(bool),
    /// Any other value: null, another number, an array or an object.
    Other,
}

/// The member `key` of the JSON object in `body`, if `body` parses as JSON
/// and is an object with that member.
pub uninterp spec fn json_member_of(body: Seq<u8>, key: Seq<char>) -> Option<JsonScalar>;

/// Bytes that form encoding writes as they are: `*-._`, digits and ASCII letters.
pub open spec fn is_unchanged_byte(b: u8) -> bool {
    b == 42 || b == 45 || b == 46 || b == 95 || (48 <= b && b <= 57) || (65 <= b && b <= 90) || (97 <= b
        && b <= 122)
}

/// An upper-case hexadecimal digit.
pub open spec fn hex_upper(n: u8) -> char {
    if n < 10 {
        ((48 + n) as u8) as char
    } else {
        ((55 + n) as u8) as char
    }
}

/// One byte, form-encoded: kept, `+` for a space, `%XX` otherwise.
pub open spec fn byte_encoded(b: u8) -> Seq<char> {
    if is_unchanged_byte(b) {
        seq![b as char]
    } else if b == 32 {
        seq!['+']
    } else {
        seq!['%', hex_upper(b / 16), hex_upper(b % 16)]
    }
}

pub open spec fn bytes_encoded(bytes: Seq<u8>) -> Seq<char>
    decreases bytes.len(),
{
    if bytes.len() == 0 {
        Seq::empty()
    } else {
        byte_encoded(bytes[0]) + bytes_encoded(bytes.drop_first())
    }
}

/// What `form_urlencoded::byte_serialize` makes of the UTF-8 bytes of `s`.
pub open spec fn form_encoded_of(s: Seq<char>) -> Seq<char> {
    bytes_encoded(encode_utf8(s))
}

/// Characters that form encoding passes through unchanged.
pub open spec fn is_unreserved_char(c: char) -> bool {
    c == '*' || c == '-' || c == '.' || c == '_' || ('0' <= c && c <= '9') || ('A' <= c && c <= 'Z')
        || ('a' <= c && c <= 'z')
}

pub open spec fn is_unreserved_text(s: Seq<char>) -> bool {
    forall|i: int| 0 <= i < s.len() ==> is_unreserved_char(#[trigger] s[i])
}

/// Text that holds neither of the query separators `&` and `=`.
pub open spec fn is_separator_free(s: Seq<char>) -> bool {
    forall|i: int| 0 <= i < s.len() ==> #[trigger] s[i] != '&' && s[i] != '='
}

pub open spec fn pairs_view(pairs: Seq<(String, String)>) -> Seq<(Seq<char>, Seq<char>)> {
    pairs.map_values(|p: (String, String)| (p.0@, p.1@))
}

/// One `key=value` item of a query string.
pub open spec fn encoded_pair(p: (Seq<char>, Seq<char>)) -> Seq<char> {
    form_encoded_of(p.0) + seq!['='] + form_encoded_of(p.1)
}

/// The items of `pairs`, in order, joined by `&`.
pub open spec fn query_of(pairs: Seq<(Seq<char>, Seq<char>)>) -> Seq<char>
    decreases pairs.len(),
{
    if pairs.len() == 0 {
        Seq::empty()
    } else if pairs.len() == 1 {
        encoded_pair(pairs[0])
    } else {
        query_of(pairs.drop_last()) + seq!['&'] + encoded_pair(pairs.last())
    }
}

/// `serde_urlencoded::ser::Error`, the error of `serde_urlencoded::to_string`;
/// it is only passed on, to be mapped to an error of this library.
#[verifier::external_type_specification]
#[verifier::external_body]
pub struct ExUrlEncodeError(serde_urlencoded::ser::Error);

/// Relies on `serde_urlencoded::to_string` on a sequence of string pairs: each
/// pair is appended by `form_urlencoded::Serializer::append_pair` as
/// `key=value`, separated by `&`; each side goes through `byte_serialize`,
/// which keeps `*-._`, digits and ASCII letters, writes a space as `+` and
/// every other byte as `%XX`.
#[verifier::external_body]
pub(crate) fn urlencode_pairs(pairs: &Vec<(String, String)>) -> (r: Result<String, serde_urlencoded::ser::Error>)
    ensures
        r is Ok,
        r->Ok_0@ == query_of(pairs_view(pairs@)),
{
    serde_urlencoded::to_string(pairs)
}

/// Relies on `base64::encode`: the standard alphabet, with padding.
#[verifier::external_body]
pub(crate) fn base64_encode(bytes: &[u8]) -> (r: String)
    ensures
        r@ == base64_of(bytes@),
{
    base64::encode(bytes)
}

/// Relies on `serde_json::to_string` on a `str`: `format_escaped_str` writes
/// the quoted literal with the `ESCAPE` table (`\"`, `\\`, `\b \t \n \f \r`,
/// other bytes below 0x20 as `\u00xx`) into a buffer in memory, which cannot fail.
#[verifier::external_body]
pub(crate) fn json_quote(s: &str) -> (r: String)
    ensures
        r@ == json_quoted_of(s@),
{
    match serde_json::to_string(s) {
        Ok(t) => t,
        Err(_) => String::new(),
    }
}

/// Relies on `str::trim`.
#[verifier::external_body]
pub(crate) fn trim_text(s: &str) -> (r: &str)
    ensures
        r@ == trimmed_of(s@),
{
    s.trim()
}

/// Relies on `serde_json::from_slice` into a `serde_json::Value` and
/// `Value::get` of `key`; the member's kind is read off its variant, a
/// number's value through `Number::as_u64`.
#[verifier::external_body]
pub(crate) fn json_member(body: &[u8], key: &str) -> (r: Option<JsonScalar>)
    ensures
        r == json_member_of(body@, key@),
{
    let doc: serde_json::Value = match serde_json::from_slice(body) {
        Ok(v) => v,
        Err(_) => return None,
    };
    match doc.get(key) {
        Some(serde_json::Value::String(s)) => Some(JsonScalar::Text(s.clone())),
        Some(serde_json::Value::Number(n)) => match n.as_u64() {
            Some(u) => Some(JsonScalar::Integer(u)),
            None => Some(JsonScalar::Other),
        },
        Some(serde_json::Value::Bool(b)) => Some(JsonScalar::Flag(*b)),
        Some(_) => Some(JsonScalar::Other),
        None => None,
    }
}

proof fn lemma_byte_encoded_separator_free(b: u8)
    ensures
        is_separator_free(byte_encoded(b)),
        byte_encoded(b).len() >= 1,
{
}

/// Form-encoded text holds neither `&` nor `=`.
pub proof fn lemma_form_encoded_separator_free(s: Seq<char>)
    ensures
        is_separator_free(form_encoded_of(s)),
{
    lemma_bytes_encoded_separator_free(encode_utf8(s));
}

proof fn lemma_bytes_encoded_separator_free(bytes: Seq<u8>)
    ensures
        is_separator_free(bytes_encoded(bytes)),
    decreases bytes.len(),
{
    if bytes.len() > 0 {
        lemma_byte_encoded_separator_free(bytes[0]);
        lemma_bytes_encoded_separator_free(bytes.drop_first());
        let head = byte_encoded(bytes[0]);
        let rest = bytes_encoded(bytes.drop_first());
        assert forall|i: int| 0 <= i < (head + rest).len() implies #[trigger] (head + rest)[i] != '&' && (head
            + rest)[i] != '=' by {
            if i < head.len() {
                assert((head + rest)[i] == head[i]);
            } else {
                assert((head + rest)[i] == rest[i - head.len()]);
            }
        }
    }
}

proof fn lemma_bytes_encoded_unchanged(bytes: Seq<u8>)
    requires
        forall|i: int| 0 <= i < bytes.len() ==> is_unchanged_byte(#[trigger] bytes[i]),
    ensures
        bytes_encoded(bytes) == bytes.map_values(|b: u8| b as char),
    decreases bytes.len(),
{
    if bytes.len() > 0 {
        let rest = bytes.drop_first();
        assert forall|i: int| 0 <= i < rest.len() implies is_unchanged_byte(#[trigger] rest[i]) by {
            assert(rest[i] == bytes[i + 1]);
        }
        lemma_bytes_encoded_unchanged(rest);
        assert(bytes_encoded(bytes) =~= bytes.map_values(|b: u8| b as char));
    }
}

/// Text of unreserved characters comes out of form encoding as it went in.
pub proof fn lemma_unreserved_encodes_to_itself(s: Seq<char>)
    requires
        is_unreserved_text(s),
    ensures
        form_encoded_of(s) == s,
{
    assert(is_ascii_chars(s));
    is_ascii_chars_encode_utf8(s);
    let bytes = encode_utf8(s);
    assert forall|i: int| 0 <= i < bytes.len() implies is_unchanged_byte(#[trigger] bytes[i]) by {
        assert(s[i] as u8 == bytes[i]);
        assert(is_unreserved_char(s[i]));
    }
    lemma_bytes_encoded_unchanged(bytes);
    assert forall|i: int| 0 <= i < s.len() implies #[trigger] s[i] == (bytes[i] as char) by {
        assert(s[i] as u8 == bytes[i]);
        assert(is_unreserved_char(s[i]));
    }
    assert(bytes.map_values(|b: u8| b as char) =~= s);
}

proof fn lemma_byte_encoded_injective(a: u8, b: u8, ra: Seq<char>, rb: Seq<char>)
    requires
        byte_encoded(a) + ra == byte_encoded(b) + rb,
    ensures
        a == b,
        ra == rb,
{
    let ea = byte_encoded(a);
    let eb = byte_encoded(b);
    assert((ea + ra)[0] == ea[0]);
    assert((eb + rb)[0] == eb[0]);
    assert(ea.len() == eb.len());
    assert(ea =~= (ea + ra).subrange(0, ea.len() as int));
    assert(eb =~= (eb + rb).subrange(0, eb.len() as int));
    assert(ra =~= (ea + ra).subrange(ea.len() as int, (ea + ra).len() as int));
    assert(rb =~= (eb + rb).subrange(eb.len() as int, (eb + rb).len() as int));
    if !is_unchanged_byte(a) && a != 32 {
        assert(a == (a / 16) * 16 + a % 16);
        assert(b == (b / 16) * 16 + b % 16);
    }
}

proof fn lemma_bytes_encoded_injective(a: Seq<u8>, b: Seq<u8>)
    requires
        bytes_encoded(a) == bytes_encoded(b),
    ensures
        a == b,
    decreases a.len(),
{
    if a.len() == 0 {
        if b.len() > 0 {
            lemma_byte_encoded_separator_free(b[0]);
            assert(bytes_encoded(b).len() >= 1);
        }
        assert(a =~= b);
    } else {
        lemma_byte_encoded_separator_free(a[0]);
        if b.len() == 0 {
            assert(bytes_encoded(a).len() >= 1);
        } else {
            lemma_byte_encoded_injective(a[0], b[0], bytes_encoded(a.drop_first()), bytes_encoded(b.drop_first()));
            lemma_bytes_encoded_injective(a.drop_first(), b.drop_first());
            assert(a =~= seq![a[0]] + a.drop_first());
            assert(b =~= seq![b[0]] + b.drop_first());
        }
    }
}

/// Different texts form-encode differently.
pub proof fn lemma_form_encoded_injective(s: Seq<char>, t: Seq<char>)
    requires
        form_encoded_of(s) == form_encoded_of(t),
    ensures
        s == t,
{
    lemma_bytes_encoded_injective(encode_utf8(s), encode_utf8(t));
    encode_utf8_decode_utf8(s);
    encode_utf8_decode_utf8(t);
}

} // verus!
