//! JSON values as the graph interpreter handles them.
//!
//! A number keeps what distinguishes JSON numbers: a non-negative integer, a negative integer, or
//! a finite binary64 number held by its bit pattern. The library never computes on the latter.

use vstd::prelude::*;
use crate::text::{text_lt, texts_ascending, lemma_text_lt_transitive, lemma_text_lt_total};

verus! {

/// A JSON number.
#[derive(Clone, Copy, Debug, PartialEq, Eq, Structural)]
pub enum JsonNumber {
    PosInt(u64),
    NegInt(i64),
    /// A finite binary64 number, by its IEEE 754 bit pattern.
    Float(u64),
}

/// A JSON value. A well-formed value (`json_wf`) keeps the keys of each object in increasing
/// order.
#[derive(Debug)]
pub enum JsonValue {
    Null,
    Bool(bool),
    Number(JsonNumber),
    String(String),
    Array(Vec<JsonValue>),
    Object(Vec<(String, JsonValue)>),
}

/// The mathematical value of a JSON value.
pub ghost enum JsonView {
    Null,
    Bool(bool),
    Number(JsonNumber),
    String(Seq<char>),
    Array(Seq<JsonView>),
    Object(Seq<(Seq<char>, JsonView)>),
}

pub open spec fn json_view(v: JsonValue) -> JsonView
    decreases v,
{
    match v {
        JsonValue::Null => JsonView::Null,
        JsonValue::Bool(b) => JsonView::Bool(b),
        JsonValue::Number(n) => JsonView::Number(n),
        JsonValue::String(s) => JsonView::String(s@),
        JsonValue::Array(items) => JsonView::Array(json_seq_view(items@)),
        JsonValue::Object(entries) => JsonView::Object(json_entries_view(entries@)),
    }
}

pub open spec fn json_seq_view(vs: Seq<JsonValue>) -> Seq<JsonView>
    decreases vs,
{
    if vs.len() == 0 {
        Seq::empty()
    } else {
        json_seq_view(vs.subrange(0, vs.len() - 1)).push(json_view(vs[vs.len() - 1]))
    }
}

pub open spec fn json_entries_view(es: Seq<(String, JsonValue)>) -> Seq<(Seq<char>, JsonView)>
    decreases es,
{
    if es.len() == 0 {
        Seq::empty()
    } else {
        json_entries_view(es.subrange(0, es.len() - 1)).push((es[es.len() - 1].0@, json_view(es[es.len() - 1].1)))
    }
}

impl View for JsonValue {
    type V = JsonView;

    open spec fn view(&self) -> JsonView {
        json_view(*self)
    }
}

pub proof fn lemma_json_seq_view(vs: Seq<JsonValue>)
    ensures
        json_seq_view(vs).len() == vs.len(),
        forall|i: int| 0 <= i < vs.len() ==> #[trigger] json_seq_view(vs)[i] == vs[i]@,
    decreases vs.len(),
{
    if vs.len() > 0 {
        lemma_json_seq_view(vs.subrange(0, vs.len() - 1));
    }
}

pub proof fn lemma_json_entries_view(es: Seq<(String, JsonValue)>)
    ensures
        json_entries_view(es).len() == es.len(),
        forall|i: int| 0 <= i < es.len() ==> #[trigger] json_entries_view(es)[i] == (es[i].0@, es[i].1@),
    decreases es.len(),
{
    if es.len() > 0 {
        lemma_json_entries_view(es.subrange(0, es.len() - 1));
    }
}

pub proof fn lemma_json_seq_view_push(vs: Seq<JsonValue>, v: JsonValue)
    ensures
        json_seq_view(vs.push(v)) == json_seq_view(vs).push(v@),
{
    assert(vs.push(v).subrange(0, vs.len() as int) =~= vs);
}

fn duplicate_items(items: &Vec<JsonValue>) -> (copy: Vec<JsonValue>)
    ensures
        json_seq_view(copy@) == json_seq_view(items@),
    decreases items,
{
    proof {
        lemma_json_seq_view(items@);
    }
    let mut copy: Vec<JsonValue> = Vec::new();
    let mut i: usize = 0;
    while i < items.len()
        invariant
            i <= items.len(),
            copy@.len() == i,
            forall|k: int| 0 <= k < i ==> #[trigger] copy@[k]@ == items@[k]@,
        decreases items.len() - i,
    {
        let c = items[i].duplicate();
        copy.push(c);
        i = i + 1;
    }
    proof {
        lemma_json_seq_view(copy@);
        assert(json_seq_view(copy@) =~= json_seq_view(items@));
    }
    copy
}

fn duplicate_entries(entries: &Vec<(String, JsonValue)>) -> (copy: Vec<(String, JsonValue)>)
    ensures
        json_entries_view(copy@) == json_entries_view(entries@),
    decreases entries,
{
    proof {
        lemma_json_entries_view(entries@);
    }
    let mut copy: Vec<(String, JsonValue)> = Vec::new();
    let mut i: usize = 0;
    while i < entries.len()
        invariant
            i <= entries.len(),
            copy@.len() == i,
            forall|k: int| 0 <= k < i ==> #[trigger] copy@[k].0@ == entries@[k].0@ && copy@[k].1@ == entries@[k].1@,
        decreases entries.len() - i,
    {
        let key = entries[i].0.clone();
        let value = entries[i].1.duplicate();
        copy.push((key, value));
        i = i + 1;
    }
    proof {
        lemma_json_entries_view(copy@);
        assert(json_entries_view(copy@) =~= json_entries_view(entries@));
    }
    copy
}

impl JsonValue {
    /// A copy of the value.
    pub fn duplicate(&self) -> (copy: JsonValue)
        ensures
            copy@ == self@,
        decreases self,
    {
        match self {
            JsonValue::Null => JsonValue::Null,
            JsonValue::Bool(b) => JsonValue::Bool(*b),
            JsonValue::Number(n) => JsonValue::Number(*n),
            JsonValue::String(s) => JsonValue::String(s.clone()),
            JsonValue::Array(items) => JsonValue::Array(duplicate_items(items)),
            JsonValue::Object(entries) => JsonValue::Object(duplicate_entries(entries)),
        }
    }

    /// The boolean held by the value, if it is a boolean.
    pub fn as_bool(&self) -> (b: Option<bool>)
        ensures
            b == (match self@ {
                JsonView::Bool(x) => Some(x),
                _ => None,
            }),
    {
        match self {
            JsonValue::Bool(b) => Some(*b),
            _ => None,
        }
    }
}

/// The value under `key` of object entries `es`: the first entry with that key.
pub open spec fn entries_get(es: Seq<(Seq<char>, JsonView)>, key: Seq<char>) -> Option<JsonView>
    decreases es.len(),
{
    if es.len() == 0 {
        None
    } else if es[0].0 == key {
        Some(es[0].1)
    } else {
        entries_get(es.skip(1), key)
    }
}

/// The entries of an object after setting `key` to `value`: an entry with that key is replaced,
/// otherwise the entry is added before the first entry whose key comes after it, keeping the
/// keys in order.
pub open spec fn entries_insert(es: Seq<(Seq<char>, JsonView)>, key: Seq<char>, value: JsonView) -> Seq<(Seq<char>, JsonView)>
    decreases es.len(),
{
    if es.len() == 0 {
        seq![(key, value)]
    } else if es[0].0 == key {
        es.update(0, (key, value))
    } else if text_lt(key, es[0].0) {
        seq![(key, value)] + es
    } else {
        seq![es[0]] + entries_insert(es.skip(1), key, value)
    }
}

/// The keys of object entries.
pub open spec fn entry_keys(es: Seq<(Seq<char>, JsonView)>) -> Seq<Seq<char>> {
    es.map_values(|e: (Seq<char>, JsonView)| e.0)
}

/// Whether a JSON value is well formed: the keys of each object, at any depth, come in
/// increasing order, as the maps of `serde_json` keep them.
pub open spec fn json_wf(v: JsonView) -> bool
    decreases v,
{
    match v {
        JsonView::Array(items) => items_wf(items),
        JsonView::Object(es) => texts_ascending(entry_keys(es)) && entries_wf(es),
        _ => true,
    }
}

pub open spec fn items_wf(items: Seq<JsonView>) -> bool
    decreases items,
{
    if items.len() == 0 {
        true
    } else {
        items_wf(items.subrange(0, items.len() - 1)) && json_wf(items[items.len() - 1])
    }
}

pub open spec fn entries_wf(es: Seq<(Seq<char>, JsonView)>) -> bool
    decreases es,
{
    if es.len() == 0 {
        true
    } else {
        entries_wf(es.subrange(0, es.len() - 1)) && json_wf(es[es.len() - 1].1)
    }
}

/// The value of an object's field `key`.
pub fn object_get<'a>(entries: &'a Vec<(String, JsonValue)>, key: &str) -> (found: Option<&'a JsonValue>)
    ensures
        match found {
            Some(v) => entries_get(json_entries_view(entries@), key@) == Some(v@),
            None => entries_get(json_entries_view(entries@), key@) is None,
        },
{
    proof {
        lemma_json_entries_view(entries@);
    }
    let ghost es = json_entries_view(entries@);
    assert(es.skip(0) =~= es);
    let mut i: usize = 0;
    while i < entries.len()
        invariant
            i <= entries.len(),
            es == json_entries_view(entries@),
            es.len() == entries@.len(),
            forall|k: int| 0 <= k < es.len() ==> #[trigger] es[k] == (entries@[k].0@, entries@[k].1@),
            entries_get(es, key@) == entries_get(es.skip(i as int), key@),
        decreases entries.len() - i,
    {
        assert(es.skip(i as int)[0] == es[i as int]);
        if crate::text::text_eq(entries[i].0.as_str(), key) {
            return Some(&entries[i].1);
        }
        assert(es.skip(i as int).skip(1) =~= es.skip(i as int + 1));
        i = i + 1;
    }
    None
}

/// Sets field `key` of an object to `value`.
pub fn object_insert(entries: &mut Vec<(String, JsonValue)>, key: String, value: JsonValue)
    ensures
        json_entries_view(final(entries)@) == entries_insert(json_entries_view(old(entries)@), key@, value@),
{
    proof {
        lemma_json_entries_view(entries@);
    }
    let ghost es = json_entries_view(entries@);
    let ghost key_view = key@;
    let ghost value_view = value@;
    let mut i: usize = 0;
    while i < entries.len()
        invariant
            i <= entries.len(),
            entries@ == old(entries)@,
            es == json_entries_view(entries@),
            es.len() == entries@.len(),
            forall|k: int| 0 <= k < es.len() ==> #[trigger] es[k] == (entries@[k].0@, entries@[k].1@),
            forall|k: int| 0 <= k < i ==> (#[trigger] es[k]).0 != key_view && !text_lt(key_view, es[k].0),
            key_view == key@,
            value_view == value@,
        decreases entries.len() - i,
    {
        proof {
            lemma_entries_insert_prefix(es, key_view, value_view, i as int);
            assert(es.skip(i as int)[0] == es[i as int]);
        }
        if crate::text::text_eq(entries[i].0.as_str(), key.as_str()) {
            entries.set(i, (key, value));
            proof {
                lemma_json_entries_view(entries@);
                assert(json_entries_view(entries@) =~= es.take(i as int) + es.skip(i as int).update(0, (key_view, value_view)));
            }
            return;
        }
        if crate::text::text_less(key.as_str(), entries[i].0.as_str()) {
            entries.insert(i, (key, value));
            proof {
                lemma_json_entries_view(entries@);
                assert(json_entries_view(entries@) =~= es.take(i as int) + (seq![(key_view, value_view)] + es.skip(i as int)));
            }
            return;
        }
        i = i + 1;
    }
    proof {
        lemma_entries_insert_prefix(es, key_view, value_view, es.len() as int);
        assert(es.skip(es.len() as int) =~= Seq::<(Seq<char>, JsonView)>::empty());
    }
    entries.push((key, value));
    proof {
        lemma_json_entries_view(entries@);
        assert(json_entries_view(entries@) =~= es.take(es.len() as int) + seq![(key_view, value_view)]);
    }
}

/// Setting a key passes over the entries before the first one whose key is the key or comes
/// after it.
pub proof fn lemma_entries_insert_prefix(es: Seq<(Seq<char>, JsonView)>, key: Seq<char>, value: JsonView, i: int)
    requires
        0 <= i <= es.len(),
        forall|k: int| 0 <= k < i ==> (#[trigger] es[k]).0 != key && !text_lt(key, es[k].0),
    ensures
        entries_insert(es, key, value) == es.take(i) + entries_insert(es.skip(i), key, value),
    decreases i,
{
    if i == 0 {
        assert(es.take(0) + entries_insert(es.skip(0), key, value) =~= entries_insert(es, key, value)) by {
            assert(es.skip(0) =~= es);
        }
    } else {
        assert forall|k: int| 0 <= k < i - 1 implies (#[trigger] es.skip(1)[k]).0 != key && !text_lt(key, es.skip(1)[k].0) by {
            assert(es.skip(1)[k] == es[k + 1]);
        }
        lemma_entries_insert_prefix(es.skip(1), key, value, i - 1);
        assert(es.skip(1).skip(i - 1) =~= es.skip(i));
        assert(seq![es[0]] + es.skip(1).take(i - 1) =~= es.take(i));
        assert(es[0].0 != key && !text_lt(key, es[0].0));
    }
}

proof fn lemma_entries_insert_keys(es: Seq<(Seq<char>, JsonView)>, key: Seq<char>, value: JsonView, j: int)
    requires
        0 <= j < entries_insert(es, key, value).len(),
    ensures
        entries_insert(es, key, value)[j].0 == key || exists|i: int| 0 <= i < es.len() && #[trigger] es[i].0 == entries_insert(es, key, value)[j].0,
    decreases es.len(),
{
    let r = entries_insert(es, key, value);
    if es.len() > 0 && es[0].0 != key {
        if text_lt(key, es[0].0) {
            if j > 0 {
                assert(r[j] == es[j - 1]);
            }
        } else if j > 0 {
            lemma_entries_insert_keys(es.skip(1), key, value, j - 1);
            assert(r[j] == entries_insert(es.skip(1), key, value)[j - 1]);
            if entries_insert(es.skip(1), key, value)[j - 1].0 != key {
                let i = choose|i: int| 0 <= i < es.skip(1).len() && #[trigger] es.skip(1)[i].0 == entries_insert(es.skip(1), key, value)[j - 1].0;
                assert(es[i + 1] == es.skip(1)[i]);
            }
        }
    } else if es.len() > 0 {
        if j > 0 {
            assert(r[j] == es[j]);
        }
    }
}

/// Setting a field keeps the keys of an object in increasing order.
pub proof fn entries_insert_keeps_order(es: Seq<(Seq<char>, JsonView)>, key: Seq<char>, value: JsonView)
    requires
        texts_ascending(entry_keys(es)),
    ensures
        texts_ascending(entry_keys(entries_insert(es, key, value))),
    decreases es.len(),
{
    let r = entries_insert(es, key, value);
    let ks = entry_keys(es);
    assert forall|a: int, b: int| 0 <= a < b < es.len() implies text_lt(#[trigger] es[a].0, #[trigger] es[b].0) by {
        assert(ks[a] == es[a].0 && ks[b] == es[b].0);
    }
    if es.len() == 0 {
    } else if es[0].0 == key {
        assert(entry_keys(r) =~= ks);
    } else if text_lt(key, es[0].0) {
        assert forall|a: int, b: int| 0 <= a < b < r.len() implies text_lt(#[trigger] entry_keys(r)[a], #[trigger] entry_keys(r)[b]) by {
            assert(entry_keys(r)[b] == es[b - 1].0);
            if a == 0 {
                if b > 1 {
                    lemma_text_lt_transitive(key, es[0].0, es[b - 1].0);
                }
            } else {
                assert(entry_keys(r)[a] == es[a - 1].0);
            }
        }
    } else {
        lemma_text_lt_total(key, es[0].0);
        let rest = es.skip(1);
        assert forall|a: int, b: int| 0 <= a < b < rest.len() implies text_lt(#[trigger] entry_keys(rest)[a], #[trigger] entry_keys(rest)[b]) by {
            assert(rest[a] == es[a + 1] && rest[b] == es[b + 1]);
        }
        entries_insert_keeps_order(rest, key, value);
        let tail = entries_insert(rest, key, value);
        assert(r =~= seq![es[0]] + tail);
        assert forall|a: int, b: int| 0 <= a < b < r.len() implies text_lt(#[trigger] entry_keys(r)[a], #[trigger] entry_keys(r)[b]) by {
            assert(entry_keys(r)[b] == tail[b - 1].0);
            if a == 0 {
                lemma_entries_insert_keys(rest, key, value, b - 1);
                if tail[b - 1].0 != key {
                    let i = choose|i: int| 0 <= i < rest.len() && #[trigger] rest[i].0 == tail[b - 1].0;
                    assert(rest[i] == es[i + 1]);
                }
            } else {
                assert(entry_keys(r)[a] == tail[a - 1].0);
                assert(entry_keys(tail)[a - 1] == tail[a - 1].0 && entry_keys(tail)[b - 1] == tail[b - 1].0);
            }
        }
    }
}

/// Reading a field right after setting it gives the value that was set.
pub proof fn entries_get_after_insert(es: Seq<(Seq<char>, JsonView)>, key: Seq<char>, value: JsonView)
    ensures
        entries_get(entries_insert(es, key, value), key) == Some(value),
    decreases es.len(),
{
    if es.len() > 0 && es[0].0 != key && !text_lt(key, es[0].0) {
        entries_get_after_insert(es.skip(1), key, value);
        let r = entries_insert(es, key, value);
        assert(r.skip(1) =~= entries_insert(es.skip(1), key, value));
    }
}

/// Setting one field leaves every other field as it was.
pub proof fn entries_get_other_after_insert(es: Seq<(Seq<char>, JsonView)>, key: Seq<char>, other: Seq<char>, value: JsonView)
    requires
        other != key,
    ensures
        entries_get(entries_insert(es, key, value), other) == entries_get(es, other),
    decreases es.len(),
{
    if es.len() > 0 {
        let r = entries_insert(es, key, value);
        if es[0].0 == key {
            assert(r.skip(1) =~= es.skip(1));
        } else if text_lt(key, es[0].0) {
            assert(r.skip(1) =~= es);
        } else {
            entries_get_other_after_insert(es.skip(1), key, other, value);
            assert(r.skip(1) =~= entries_insert(es.skip(1), key, value));
        }
    } else {
        let r = entries_insert(es, key, value);
        assert(r.skip(1) =~= Seq::<(Seq<char>, JsonView)>::empty());
        reveal_with_fuel(entries_get, 2);
    }
}

} // verus!

verus! {

/// Whether two JSON numbers are equal: integers by value, binary64 numbers as binary64 values
/// compare, where the two zeros are equal.
pub open spec fn number_eq(a: JsonNumber, b: JsonNumber) -> bool {
    match (a, b) {
        (JsonNumber::PosInt(x), JsonNumber::PosInt(y)) => x == y,
        (JsonNumber::NegInt(x), JsonNumber::NegInt(y)) => x == y,
        (JsonNumber::Float(x), JsonNumber::Float(y)) => x == y || ((x == 0 || x == 0x8000_0000_0000_0000) && (
        y == 0 || y == 0x8000_0000_0000_0000)),
        _ => false,
    }
}

/// Whether two JSON values are equal: of the same kind, with equal contents; arrays item by
/// item and objects entry by entry.
pub open spec fn json_eq(a: JsonView, b: JsonView) -> bool
    decreases a,
{
    match (a, b) {
        (JsonView::Null, JsonView::Null) => true,
        (JsonView::Bool(x), JsonView::Bool(y)) => x == y,
        (JsonView::Number(x), JsonView::Number(y)) => number_eq(x, y),
        (JsonView::String(x), JsonView::String(y)) => x == y,
        (JsonView::Array(xs), JsonView::Array(ys)) => items_eq(xs, ys),
        (JsonView::Object(xs), JsonView::Object(ys)) => entries_eq(xs, ys),
        _ => false,
    }
}

pub open spec fn items_eq(xs: Seq<JsonView>, ys: Seq<JsonView>) -> bool
    decreases xs,
{
    if xs.len() == 0 {
        ys.len() == 0
    } else {
        &&& ys.len() == xs.len()
        &&& items_eq(xs.subrange(0, xs.len() - 1), ys.subrange(0, ys.len() - 1))
        &&& json_eq(xs[xs.len() - 1], ys[ys.len() - 1])
    }
}

pub open spec fn entries_eq(xs: Seq<(Seq<char>, JsonView)>, ys: Seq<(Seq<char>, JsonView)>) -> bool
    decreases xs,
{
    if xs.len() == 0 {
        ys.len() == 0
    } else {
        &&& ys.len() == xs.len()
        &&& entries_eq(xs.subrange(0, xs.len() - 1), ys.subrange(0, ys.len() - 1))
        &&& xs[xs.len() - 1].0 == ys[ys.len() - 1].0
        &&& json_eq(xs[xs.len() - 1].1, ys[ys.len() - 1].1)
    }
}

proof fn lemma_items_eq(xs: Seq<JsonView>, ys: Seq<JsonView>)
    ensures
        items_eq(xs, ys) <==> (xs.len() == ys.len() && forall|i: int| 0 <= i < xs.len() ==> json_eq(#[trigger] xs[i], ys[i])),
    decreases xs.len(),
{
    if xs.len() > 0 && ys.len() == xs.len() {
        let n = xs.len() - 1;
        lemma_items_eq(xs.subrange(0, n), ys.subrange(0, n));
        if forall|i: int| 0 <= i < xs.len() ==> json_eq(#[trigger] xs[i], ys[i]) {
            assert forall|i: int| 0 <= i < n implies json_eq(#[trigger] xs.subrange(0, n)[i], ys.subrange(0, n)[i]) by {
                assert(xs.subrange(0, n)[i] == xs[i]);
            }
        }
        if items_eq(xs, ys) {
            assert forall|i: int| 0 <= i < xs.len() implies json_eq(#[trigger] xs[i], ys[i]) by {
                if i < n {
                    assert(xs.subrange(0, n)[i] == xs[i]);
                }
            }
        }
    }
}

proof fn lemma_entries_eq(xs: Seq<(Seq<char>, JsonView)>, ys: Seq<(Seq<char>, JsonView)>)
    ensures
        entries_eq(xs, ys) <==> (xs.len() == ys.len() && forall|i: int|
            0 <= i < xs.len() ==> (#[trigger] xs[i]).0 == ys[i].0 && json_eq(xs[i].1, ys[i].1)),
    decreases xs.len(),
{
    if xs.len() > 0 && ys.len() == xs.len() {
        let n = xs.len() - 1;
        lemma_entries_eq(xs.subrange(0, n), ys.subrange(0, n));
        if forall|i: int| 0 <= i < xs.len() ==> (#[trigger] xs[i]).0 == ys[i].0 && json_eq(xs[i].1, ys[i].1) {
            assert forall|i: int| 0 <= i < n implies (#[trigger] xs.subrange(0, n)[i]).0 == ys.subrange(0, n)[i].0
                && json_eq(xs.subrange(0, n)[i].1, ys.subrange(0, n)[i].1) by {
                assert(xs.subrange(0, n)[i] == xs[i]);
            }
        }
        if entries_eq(xs, ys) {
            assert forall|i: int| 0 <= i < xs.len() implies (#[trigger] xs[i]).0 == ys[i].0 && json_eq(xs[i].1, ys[i].1) by {
                if i < n {
                    assert(xs.subrange(0, n)[i] == xs[i]);
                }
            }
        }
    }
}

fn number_equal(a: JsonNumber, b: JsonNumber) -> (eq: bool)
    ensures
        eq == number_eq(a, b),
{
    match (a, b) {
        (JsonNumber::PosInt(x), JsonNumber::PosInt(y)) => x == y,
        (JsonNumber::NegInt(x), JsonNumber::NegInt(y)) => x == y,
        (JsonNumber::Float(x), JsonNumber::Float(y)) => x == y || ((x == 0 || x == 0x8000_0000_0000_0000) && (y == 0
            || y == 0x8000_0000_0000_0000)),
        _ => false,
    }
}

fn items_equal(xs: &Vec<JsonValue>, ys: &Vec<JsonValue>) -> (eq: bool)
    ensures
        eq == items_eq(json_seq_view(xs@), json_seq_view(ys@)),
    decreases xs,
{
    proof {
        lemma_json_seq_view(xs@);
        lemma_json_seq_view(ys@);
        lemma_items_eq(json_seq_view(xs@), json_seq_view(ys@));
    }
    if xs.len() != ys.len() {
        return false;
    }
    let mut i: usize = 0;
    while i < xs.len()
        invariant
            i <= xs.len(),
            xs.len() == ys.len(),
            json_seq_view(xs@).len() == xs.len(),
            json_seq_view(ys@).len() == ys.len(),
            forall|k: int| 0 <= k < xs.len() ==> #[trigger] json_seq_view(xs@)[k] == xs@[k]@,
            forall|k: int| 0 <= k < ys.len() ==> #[trigger] json_seq_view(ys@)[k] == ys@[k]@,
            forall|k: int| 0 <= k < i ==> json_eq(#[trigger] json_seq_view(xs@)[k], json_seq_view(ys@)[k]),
        decreases xs.len() - i,
    {
        if !json_equal(&xs[i], &ys[i]) {
            proof {
                assert(!json_eq(json_seq_view(xs@)[i as int], json_seq_view(ys@)[i as int]));
                lemma_items_eq(json_seq_view(xs@), json_seq_view(ys@));
            }
            return false;
        }
        i = i + 1;
    }
    proof {
        lemma_items_eq(json_seq_view(xs@), json_seq_view(ys@));
    }
    true
}

fn entries_equal(xs: &Vec<(String, JsonValue)>, ys: &Vec<(String, JsonValue)>) -> (eq: bool)
    ensures
        eq == entries_eq(json_entries_view(xs@), json_entries_view(ys@)),
    decreases xs,
{
    proof {
        lemma_json_entries_view(xs@);
        lemma_json_entries_view(ys@);
    }
    if xs.len() != ys.len() {
        proof {
            lemma_entries_eq(json_entries_view(xs@), json_entries_view(ys@));
        }
        return false;
    }
    let mut i: usize = 0;
    while i < xs.len()
        invariant
            i <= xs.len(),
            xs.len() == ys.len(),
            json_entries_view(xs@).len() == xs.len(),
            json_entries_view(ys@).len() == ys.len(),
            forall|k: int| 0 <= k < xs.len() ==> #[trigger] json_entries_view(xs@)[k] == (xs@[k].0@, xs@[k].1@),
            forall|k: int| 0 <= k < ys.len() ==> #[trigger] json_entries_view(ys@)[k] == (ys@[k].0@, ys@[k].1@),
            forall|k: int| 0 <= k < i ==> (#[trigger] json_entries_view(xs@)[k]).0 == json_entries_view(ys@)[k].0
                && json_eq(json_entries_view(xs@)[k].1, json_entries_view(ys@)[k].1),
        decreases xs.len() - i,
    {
        let same_key = crate::text::text_eq(xs[i].0.as_str(), ys[i].0.as_str());
        if !same_key || !json_equal(&xs[i].1, &ys[i].1) {
            proof {
                assert(!(json_entries_view(xs@)[i as int].0 == json_entries_view(ys@)[i as int].0
                    && json_eq(json_entries_view(xs@)[i as int].1, json_entries_view(ys@)[i as int].1)));
                lemma_entries_eq(json_entries_view(xs@), json_entries_view(ys@));
            }
            return false;
        }
        i = i + 1;
    }
    proof {
        lemma_entries_eq(json_entries_view(xs@), json_entries_view(ys@));
    }
    true
}

/// Whether two JSON values are equal, as `serde_json` compares them: objects entry by entry,
/// which is how its maps compare, for well-formed values, whose keys are in order.
pub fn json_equal(a: &JsonValue, b: &JsonValue) -> (eq: bool)
    ensures
        eq == json_eq(a@, b@),
    decreases a,
{
    match (a, b) {
        (JsonValue::Null, JsonValue::Null) => true,
        (JsonValue::Bool(x), JsonValue::Bool(y)) => *x == *y,
        (JsonValue::Number(x), JsonValue::Number(y)) => number_equal(*x, *y),
        (JsonValue::String(x), JsonValue::String(y)) => crate::text::text_eq(x.as_str(), y.as_str()),
        (JsonValue::Array(xs), JsonValue::Array(ys)) => items_equal(xs, ys),
        (JsonValue::Object(xs), JsonValue::Object(ys)) => entries_equal(xs, ys),
        _ => false,
    }
}

/// What a comparison node decides from equality alone: `equal` and `notequal` compare the
/// values; any other operator is decided on numbers or text, elsewhere.
pub open spec fn equality_compare_spec(operator: Seq<char>, left: JsonView, right: JsonView) -> Option<bool> {
    if operator == "equal"@ {
        Some(json_eq(left, right))
    } else if operator == "notequal"@ {
        Some(!json_eq(left, right))
    } else {
        None
    }
}

/// The result of a comparison node whose operator compares for equality, if it does.
pub fn equality_compare(operator: &str, left: &JsonValue, right: &JsonValue) -> (r: Option<bool>)
    ensures
        r == equality_compare_spec(operator@, left@, right@),
{
    if crate::text::text_eq(operator, "equal") {
        Some(json_equal(left, right))
    } else if crate::text::text_eq(operator, "notequal") {
        Some(!json_equal(left, right))
    } else {
        None
    }
}

} // verus!
