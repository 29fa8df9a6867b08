//! Reading a query string back: its `&`-separated items and the key of each.
//! Form encoding leaves no separator inside a key or a value, so the items
//! and keys of an encoded query are exactly the encoded pairs and keys.
use vstd::prelude::*;
use crate::encoding::{encoded_pair, form_encoded_of, is_separator_free, query_of};

verus! {

/// `s` cut at every `sep`; text without `sep` is one piece.
pub open spec fn split_on(s: Seq<char>, sep: char) -> Seq<Seq<char>>
    decreases s.len(),
{
    if s.len() == 0 {
        seq![Seq::empty()]
    } else {
        let rest = split_on(s.drop_last(), sep);
        if s.last() == sep {
            rest.push(Seq::empty())
        } else {
            rest.update(rest.len() - 1, rest.last().push(s.last()))
        }
    }
}

/// The text of an item up to its first `=`.
pub open spec fn key_part(item: Seq<char>) -> Seq<char>
    decreases item.len(),
{
    if item.len() == 0 || item[0] == '=' {
        Seq::empty()
    } else {
        seq![item[0]] + key_part(item.drop_first())
    }
}

pub open spec fn query_items(q: Seq<char>) -> Seq<Seq<char>> {
    split_on(q, '&')
}

pub open spec fn query_keys(q: Seq<char>) -> Seq<Seq<char>> {
    query_items(q).map_values(|item: Seq<char>| key_part(item))
}

pub open spec fn lacks(s: Seq<char>, c: char) -> bool {
    forall|i: int| 0 <= i < s.len() ==> #[trigger] s[i] != c
}

/// Every key and value of `pairs` encodes without separators.
pub open spec fn encodes_cleanly(pairs: Seq<(Seq<char>, Seq<char>)>) -> bool {
    forall|i: int|
        0 <= i < pairs.len() ==> is_separator_free(form_encoded_of(#[trigger] pairs[i].0))
            && is_separator_free(form_encoded_of(pairs[i].1))
}

pub open spec fn encoded_keys(pairs: Seq<(Seq<char>, Seq<char>)>) -> Seq<Seq<char>> {
    pairs.map_values(|p: (Seq<char>, Seq<char>)| form_encoded_of(p.0))
}

proof fn lemma_split_single(b: Seq<char>, sep: char)
    requires
        lacks(b, sep),
    ensures
        split_on(b, sep) == seq![b],
    decreases b.len(),
{
    if b.len() == 0 {
        assert(b =~= Seq::empty());
    } else {
        let b0 = b.drop_last();
        assert(lacks(b0, sep));
        lemma_split_single(b0, sep);
        assert(b0.push(b.last()) =~= b);
        assert(split_on(b, sep) =~= seq![b]);
    }
}

proof fn lemma_split_append(a: Seq<char>, b: Seq<char>, sep: char)
    requires
        lacks(b, sep),
    ensures
        split_on(a + seq![sep] + b, sep) == split_on(a, sep).push(b),
    decreases b.len(),
{
    let s = a + seq![sep] + b;
    if b.len() == 0 {
        assert(s.drop_last() =~= a);
        assert(b =~= Seq::<char>::empty());
    } else {
        let b0 = b.drop_last();
        assert(lacks(b0, sep));
        lemma_split_append(a, b0, sep);
        assert(s.drop_last() =~= a + seq![sep] + b0);
        assert(s.last() == b.last());
        assert(b0.push(b.last()) =~= b);
        assert(split_on(s, sep) =~= split_on(a, sep).push(b));
    }
}

proof fn lemma_key_part(k: Seq<char>, v: Seq<char>)
    requires
        lacks(k, '='),
    ensures
        key_part(k + seq!['='] + v) == k,
    decreases k.len(),
{
    let item = k + seq!['='] + v;
    if k.len() == 0 {
        assert(item[0] == '=');
        assert(k =~= Seq::<char>::empty());
    } else {
        let k1 = k.drop_first();
        assert(lacks(k1, '='));
        lemma_key_part(k1, v);
        assert(item.drop_first() =~= k1 + seq!['='] + v);
        assert(seq![k[0]] + k1 =~= k);
    }
}

proof fn lemma_pair_lacks_amp(p: (Seq<char>, Seq<char>))
    requires
        is_separator_free(form_encoded_of(p.0)),
        is_separator_free(form_encoded_of(p.1)),
    ensures
        lacks(encoded_pair(p), '&'),
{
    let e = encoded_pair(p);
    let k = form_encoded_of(p.0);
    let v = form_encoded_of(p.1);
    assert forall|i: int| 0 <= i < e.len() implies #[trigger] e[i] != '&' by {
        if i < k.len() {
            assert(e[i] == k[i]);
        } else if i == k.len() {
            assert(e[i] == '=');
        } else {
            assert(e[i] == v[i - k.len() - 1]);
        }
    }
}

/// The items of an encoded, non-empty query are its encoded pairs.
pub proof fn lemma_query_items(pairs: Seq<(Seq<char>, Seq<char>)>)
    requires
        pairs.len() >= 1,
        encodes_cleanly(pairs),
    ensures
        query_items(query_of(pairs)) == pairs.map_values(|p: (Seq<char>, Seq<char>)| encoded_pair(p)),
    decreases pairs.len(),
{
    let want = pairs.map_values(|p: (Seq<char>, Seq<char>)| encoded_pair(p));
    let last = pairs.last();
    assert(is_separator_free(form_encoded_of(pairs[pairs.len() - 1].0)));
    lemma_pair_lacks_amp(last);
    if pairs.len() == 1 {
        lemma_split_single(encoded_pair(last), '&');
        assert(query_items(query_of(pairs)) =~= want);
    } else {
        let init = pairs.drop_last();
        assert(encodes_cleanly(init)) by {
            assert forall|i: int| 0 <= i < init.len() implies is_separator_free(
                form_encoded_of(#[trigger] init[i].0),
            ) && is_separator_free(form_encoded_of(init[i].1)) by {
                assert(init[i] == pairs[i]);
            }
        }
        lemma_query_items(init);
        lemma_split_append(query_of(init), encoded_pair(last), '&');
        assert(query_items(query_of(pairs)) =~= want);
    }
}

/// The keys of an encoded, non-empty query are its encoded keys.
pub proof fn lemma_query_keys(pairs: Seq<(Seq<char>, Seq<char>)>)
    requires
        pairs.len() >= 1,
        encodes_cleanly(pairs),
    ensures
        query_keys(query_of(pairs)) == encoded_keys(pairs),
{
    lemma_query_items(pairs);
    let items = query_items(query_of(pairs));
    assert forall|i: int| 0 <= i < pairs.len() implies #[trigger] key_part(items[i]) == form_encoded_of(
        pairs[i].0,
    ) by {
        assert(items[i] == encoded_pair(pairs[i]));
        let k = form_encoded_of(pairs[i].0);
        assert(lacks(k, '=')) by {
            assert forall|j: int| 0 <= j < k.len() implies #[trigger] k[j] != '=' by {
                assert(is_separator_free(k));
            }
        }
        lemma_key_part(k, form_encoded_of(pairs[i].1));
    }
    assert(query_keys(query_of(pairs)) =~= encoded_keys(pairs));
}

} // verus!
