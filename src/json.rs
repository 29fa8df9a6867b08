//! JSON request bodies, framed here: objects and arrays are joined by
//! verified code, string literals come from `serde_json`.
use vstd::prelude::*;
use crate::encoding::{json_quote, json_quoted_of};
use crate::http::concat2;

verus! {

/// `parts` with `sep` between neighbours.
pub open spec fn joined(parts: Seq<Seq<char>>, sep: Seq<char>) -> Seq<char>
    decreases parts.len(),
{
    if parts.len() == 0 {
        Seq::empty()
    } else if parts.len() == 1 {
        parts[0]
    } else {
        joined(parts.drop_last(), sep) + sep + parts.last()
    }
}

pub open spec fn texts_view(v: Seq<String>) -> Seq<Seq<char>> {
    v.map_values(|s: String| s@)
}

pub open spec fn opt_string(o: Option<String>) -> Option<Seq<char>> {
    match o {
        Some(s) => Some(s@),
        None => None,
    }
}

pub open spec fn opt_text(o: Option<&str>) -> Option<Seq<char>> {
    match o {
        Some(s) => Some(s@),
        None => None,
    }
}

pub open spec fn opt_texts(o: Option<Vec<String>>) -> Option<Seq<Seq<char>>> {
    match o {
        Some(v) => Some(texts_view(v@)),
        None => None,
    }
}

/// A JSON object of already written `"key":value` members.
pub open spec fn object_of(members: Seq<Seq<char>>) -> Seq<char> {
    "{"@ + joined(members, ","@) + "}"@
}

/// A JSON array of already written values.
pub open spec fn array_of(values: Seq<Seq<char>>) -> Seq<char> {
    "["@ + joined(values, ","@) + "]"@
}

/// One `"key":value` member.
pub open spec fn member_of(key: Seq<char>, value: Seq<char>) -> Seq<char> {
    json_quoted_of(key) + ":"@ + value
}

/// A JSON array of string literals.
pub open spec fn string_array_of(items: Seq<Seq<char>>) -> Seq<char> {
    array_of(items.map_values(|s: Seq<char>| json_quoted_of(s)))
}

/// `open`, then `parts` separated by commas, then `close`.
pub fn enclose(open: &str, parts: &Vec<String>, close: &str) -> (r: String)
    ensures
        r@ == open@ + joined(texts_view(parts@), ","@) + close@,
{
    let mut out = open.to_owned();
    let mut i: usize = 0;
    while i < parts.len()
        invariant
            i <= parts@.len(),
            out@ == open@ + joined(texts_view(parts@).subrange(0, i as int), ","@),
        decreases parts@.len() - i,
    {
        let ghost before = texts_view(parts@).subrange(0, i as int);
        let ghost after = texts_view(parts@).subrange(0, i + 1);
        if i > 0 {
            out.append(",");
        }
        out.append(parts[i].as_str());
        proof {
            assert(after.drop_last() =~= before);
            assert(after.last() == parts@[i as int]@);
            if i == 0 {
                assert(before =~= Seq::<Seq<char>>::empty());
            }
        }
        i = i + 1;
    }
    assert(texts_view(parts@).subrange(0, parts@.len() as int) =~= texts_view(parts@));
    out.append(close);
    out
}

/// `"key":value`.
pub fn member(key: &str, value: &str) -> (r: String)
    ensures
        r@ == member_of(key@, value@),
{
    let mut out = json_quote(key);
    out.append(":");
    out.append(value);
    out
}

/// A JSON object of the given members.
pub fn object(members: &Vec<String>) -> (r: String)
    ensures
        r@ == object_of(texts_view(members@)),
{
    enclose("{", members, "}")
}

/// A JSON array of the given strings, each written as a string literal.
pub fn string_array(items: &Vec<String>) -> (r: String)
    ensures
        r@ == string_array_of(texts_view(items@)),
{
    let mut quoted: Vec<String> = Vec::new();
    let mut i: usize = 0;
    while i < items.len()
        invariant
            i <= items@.len(),
            texts_view(quoted@) =~= texts_view(items@).subrange(0, i as int).map_values(
                |s: Seq<char>| json_quoted_of(s),
            ),
        decreases items@.len() - i,
    {
        let ghost before = quoted@;
        quoted.push(json_quote(items[i].as_str()));
        assert(texts_view(quoted@) =~= texts_view(before).push(json_quoted_of(items@[i as int]@)));
        i = i + 1;
    }
    assert(texts_view(items@).subrange(0, items@.len() as int) =~= texts_view(items@));
    enclose("[", &quoted, "]")
}

/// `"key":"value"`.
pub fn string_member(key: &str, value: &str) -> (r: String)
    ensures
        r@ == member_of(key@, json_quoted_of(value@)),
{
    let quoted = json_quote(value);
    member(key, quoted.as_str())
}

/// Whether `a` and `b` hold the same text.
pub fn same_text(a: &str, b: &str) -> (r: bool)
    ensures
        r == (a@ == b@),
{
    let x = a.to_owned();
    let y = b.to_owned();
    x == y
}

/// `first`, `second` and `third` in a row.
pub fn concat3(first: &str, second: &str, third: &str) -> (r: String)
    ensures
        r@ == first@ + second@ + third@,
{
    let mut s = concat2(first, second);
    s.append(third);
    s
}

} // verus!
