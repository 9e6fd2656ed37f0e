//! A JSON value as the library reads and writes it.
//!
//! Numbers keep the distinction that `serde_json` makes between
//! non-negative integers, negative integers and floats; a float is carried as
//! its `serde_json` text. Objects keep their entries in order.

use vstd::prelude::*;
use crate::text::{
    lemma_text_less_irreflexive, lemma_text_less_total, lemma_text_less_transitive, text_less, text_lt,
};

verus! {

/// A JSON number.
#[derive(Debug, PartialEq)]
pub enum JsonNumber {
    /// A non-negative integer.
    PosInt(u64),
    /// A negative integer.
    NegInt(i64),
    /// A floating-point number, as `serde_json` writes it.
    Float(String),
}

/// A JSON value.
#[derive(Debug, PartialEq)]
pub enum JsonValue {
    /// `null`.
    Null,
    /// `true` or `false`.
    Bool(bool),
    /// A number.
    Number(JsonNumber),
    /// A string.
    String(String),
    /// An array.
    Array(Vec<JsonValue>),
    /// An object: key-value entries in order.
    Object(Vec<JsonEntry>),
}

/// One key-value entry of a JSON object.
#[derive(Debug, PartialEq)]
pub struct JsonEntry {
    /// The key.
    pub key: String,
    /// The value.
    pub value: JsonValue,
}

/// The mathematical view of a JSON number.
pub enum NumberModel {
    /// A non-negative integer.
    PosInt(u64),
    /// A negative integer.
    NegInt(i64),
    /// A float by its text.
    Float(Seq<char>),
}

/// The mathematical view of a JSON value.
pub enum JsonModel {
    /// `null`.
    Null,
    /// A boolean.
    Bool(bool),
    /// A number.
    Number(NumberModel),
    /// A string.
    Text(Seq<char>),
    /// An array.
    Array(Seq<JsonModel>),
    /// An object: keys and values, entry by entry.
    Object(Seq<(Seq<char>, JsonModel)>),
}

/// The view of a number.
pub open spec fn number_model(n: JsonNumber) -> NumberModel {
    match n {
        JsonNumber::PosInt(u) => NumberModel::PosInt(u),
        JsonNumber::NegInt(i) => NumberModel::NegInt(i),
        JsonNumber::Float(s) => NumberModel::Float(s@),
    }
}

/// The view of a value.
pub open spec fn model(v: JsonValue) -> JsonModel
    decreases v, 0nat,
{
    match v {
        JsonValue::Null => JsonModel::Null,
        JsonValue::Bool(b) => JsonModel::Bool(b),
        JsonValue::Number(n) => JsonModel::Number(number_model(n)),
        JsonValue::String(s) => JsonModel::Text(s@),
        JsonValue::Array(items) => JsonModel::Array(items_model(items@)),
        JsonValue::Object(entries) => JsonModel::Object(entries_model(entries@)),
    }
}

/// The views of a sequence of values.
pub open spec fn items_model(items: Seq<JsonValue>) -> Seq<JsonModel>
    decreases items, 1nat,
{
    if items.len() == 0 {
        Seq::empty()
    } else {
        items_model(items.drop_last()).push(model(items.last()))
    }
}

/// The views of a sequence of object entries.
pub open spec fn entries_model(entries: Seq<JsonEntry>) -> Seq<(Seq<char>, JsonModel)>
    decreases entries, 1nat,
{
    if entries.len() == 0 {
        Seq::empty()
    } else {
        entries_model(entries.drop_last()).push(
            (entries.last().key@, model(entries.last().value)),
        )
    }
}

/// A deep copy of a number.
pub fn clone_number(n: &JsonNumber) -> (c: JsonNumber)
    ensures
        number_model(c) == number_model(*n),
{
    match n {
        JsonNumber::PosInt(u) => JsonNumber::PosInt(*u),
        JsonNumber::NegInt(i) => JsonNumber::NegInt(*i),
        JsonNumber::Float(s) => JsonNumber::Float(s.clone()),
    }
}

/// A deep copy of a value.
pub fn clone_value(v: &JsonValue) -> (c: JsonValue)
    ensures
        model(c) == model(*v),
    decreases *v, 0nat,
{
    match v {
        JsonValue::Null => JsonValue::Null,
        JsonValue::Bool(b) => JsonValue::Bool(*b),
        JsonValue::Number(n) => JsonValue::Number(clone_number(n)),
        JsonValue::String(s) => JsonValue::String(s.clone()),
        JsonValue::Array(items) => JsonValue::Array(clone_items(items)),
        JsonValue::Object(entries) => JsonValue::Object(clone_entries(entries)),
    }
}

/// Deep copies of a vector of values.
pub fn clone_items(items: &Vec<JsonValue>) -> (c: Vec<JsonValue>)
    ensures
        items_model(c@) == items_model(items@),
    decreases *items, 1nat,
{
    let mut out: Vec<JsonValue> = Vec::new();
    let mut i: usize = 0;
    while i < items.len()
        invariant
            i <= items.len(),
            items_model(out@) == items_model(items@.take(i as int)),
        decreases items.len() - i,
    {
        let c = clone_value(&items[i]);
        let ghost before = out@;
        out.push(c);
        proof {
            assert(out@.drop_last() == before);
            assert(items@.take(i + 1).drop_last() == items@.take(i as int));
            assert(items@.take(i + 1).last() == items@[i as int]);
        }
        i = i + 1;
    }
    assert(items@.take(items.len() as int) == items@);
    out
}

/// Deep copies of a vector of entries.
pub fn clone_entries(entries: &Vec<JsonEntry>) -> (c: Vec<JsonEntry>)
    ensures
        entries_model(c@) == entries_model(entries@),
    decreases *entries, 1nat,
{
    let mut out: Vec<JsonEntry> = Vec::new();
    let mut i: usize = 0;
    while i < entries.len()
        invariant
            i <= entries.len(),
            entries_model(out@) == entries_model(entries@.take(i as int)),
        decreases entries.len() - i,
    {
        let e = &entries[i];
        let c = JsonEntry { key: e.key.clone(), value: clone_value(&e.value) };
        let ghost before = out@;
        out.push(c);
        proof {
            assert(out@.drop_last() == before);
            assert(entries@.take(i + 1).drop_last() == entries@.take(i as int));
            assert(entries@.take(i + 1).last() == entries@[i as int]);
        }
        i = i + 1;
    }
    assert(entries@.take(entries.len() as int) == entries@);
    out
}

impl Clone for JsonValue {
    fn clone(&self) -> (c: Self)
        ensures
            model(c) == model(*self),
    {
        clone_value(self)
    }
}

/// Pushes an entry, extending the entry views by its view.
pub fn push_entry(out: &mut Vec<JsonEntry>, e: JsonEntry)
    ensures
        entries_model(final(out)@) == entries_model(old(out)@).push((e.key@, model(e.value))),
{
    let ghost before = out@;
    out.push(e);
    assert(out@.drop_last() == before);
}

impl Clone for JsonEntry {
    fn clone(&self) -> (c: Self)
        ensures
            c.key@ == self.key@,
            model(c.value) == model(self.value),
    {
        JsonEntry { key: self.key.clone(), value: clone_value(&self.value) }
    }
}

proof fn lemma_items_model_index(items: Seq<JsonValue>)
    ensures
        items_model(items).len() == items.len(),
        forall|i: int| 0 <= i < items.len() ==> #[trigger] items_model(items)[i] == model(items[i]),
    decreases items.len(),
{
    if items.len() > 0 {
        lemma_items_model_index(items.drop_last());
        assert forall|i: int| 0 <= i < items.len() implies #[trigger] items_model(items)[i] == model(items[i]) by {
            if i < items.len() - 1 {
                assert(items.drop_last()[i] == items[i]);
            }
        }
    }
}

/// The entries of an object view have the keys and values of its entries.
pub proof fn lemma_entries_model_index(entries: Seq<JsonEntry>)
    ensures
        entries_model(entries).len() == entries.len(),
        forall|i: int|
            0 <= i < entries.len() ==> #[trigger] entries_model(entries)[i] == (
                entries[i].key@,
                model(entries[i].value),
            ),
    decreases entries.len(),
{
    if entries.len() > 0 {
        lemma_entries_model_index(entries.drop_last());
        assert forall|i: int| 0 <= i < entries.len() implies #[trigger] entries_model(entries)[i] == (
            entries[i].key@,
            model(entries[i].value),
        ) by {
            if i < entries.len() - 1 {
                assert(entries.drop_last()[i] == entries[i]);
            }
        }
    }
}

/// Index of the first entry with the given key, at or after `from`.
pub open spec fn key_index(entries: Seq<(Seq<char>, JsonModel)>, key: Seq<char>, from: int) -> Option<int>
    decreases entries.len() - from,
{
    if from < 0 || from >= entries.len() {
        None
    } else if entries[from].0 == key {
        Some(from)
    } else {
        key_index(entries, key, from + 1)
    }
}

/// The value stored under a key of an object (the first entry with that key).
pub open spec fn lookup(entries: Seq<(Seq<char>, JsonModel)>, key: Seq<char>) -> Option<JsonModel> {
    match key_index(entries, key, 0) {
        Some(i) => Some(entries[i].1),
        None => None,
    }
}

/// `Value::get` on a key: the entry's value for objects, nothing otherwise.
pub open spec fn get_key(m: JsonModel, key: Seq<char>) -> Option<JsonModel> {
    match m {
        JsonModel::Object(entries) => lookup(entries, key),
        _ => None,
    }
}

/// Index of the first entry with the given key.
pub fn find_key(entries: &Vec<JsonEntry>, key: &str) -> (r: Option<usize>)
    ensures
        r matches Some(i) ==> i < entries.len() && key_index(entries_model(entries@), key@, 0)
            == Some(i as int),
        r is None ==> key_index(entries_model(entries@), key@, 0) is None,
{
    proof {
        lemma_entries_model_index(entries@);
    }
    let ghost em = entries_model(entries@);
    let mut i: usize = 0;
    while i < entries.len()
        invariant
            i <= entries.len(),
            em == entries_model(entries@),
            em.len() == entries.len(),
            forall|j: int| 0 <= j < entries.len() ==> #[trigger] em[j] == (
                entries@[j].key@,
                model(entries@[j].value),
            ),
            key_index(em, key@, 0) == key_index(em, key@, i as int),
        decreases entries.len() - i,
    {
        if crate::text::str_eq(entries[i].key.as_str(), key) {
            assert(em[i as int].0 == key@);
            return Some(i);
        }
        assert(em[i as int].0 != key@);
        i = i + 1;
    }
    None
}

impl JsonValue {
    /// The value stored under `key` when this value is an object.
    pub fn get(&self, key: &str) -> (r: Option<&JsonValue>)
        ensures
            r matches Some(v) ==> get_key(model(*self), key@) == Some(model(*v)),
            r is None ==> get_key(model(*self), key@) is None,
    {
        match self {
            JsonValue::Object(entries) => {
                proof {
                    lemma_entries_model_index(entries@);
                }
                match find_key(entries, key) {
                    Some(i) => Some(&entries[i].value),
                    None => None,
                }
            },
            _ => None,
        }
    }

    /// Whether this value is an object.
    pub fn is_object(&self) -> (b: bool)
        ensures
            b == model(*self) is Object,
    {
        match self {
            JsonValue::Object(_) => true,
            _ => false,
        }
    }
}

/// Text of a scalar as `value_to_string` gives it: strings as they are,
/// numbers in their decimal or float notation, nothing for other values.
pub open spec fn scalar_text(m: JsonModel) -> Option<Seq<char>> {
    match m {
        JsonModel::Text(s) => Some(s),
        JsonModel::Number(NumberModel::PosInt(u)) => Some(crate::text::decimal(u as nat)),
        JsonModel::Number(NumberModel::NegInt(i)) => Some(crate::text::decimal_int(i as int)),
        JsonModel::Number(NumberModel::Float(t)) => Some(t),
        _ => None,
    }
}

/// Text of a string or number value.
pub fn value_to_string(v: &JsonValue) -> (r: Option<String>)
    ensures
        r matches Some(s) ==> scalar_text(model(*v)) == Some(s@),
        r is None ==> scalar_text(model(*v)) is None,
{
    match v {
        JsonValue::String(s) => Some(s.clone()),
        JsonValue::Number(JsonNumber::PosInt(u)) => Some(crate::text::decimal_string(*u)),
        JsonValue::Number(JsonNumber::NegInt(i)) => Some(crate::text::decimal_string_i64(*i)),
        JsonValue::Number(JsonNumber::Float(t)) => Some(t.clone()),
        _ => None,
    }
}

/// `serde_json::Map::insert` on an object's entries: an entry with the key
/// gets the new value; otherwise the entry goes in before the first entry
/// whose key sorts after it (the maps keep their keys sorted).
pub open spec fn object_insert(
    entries: Seq<(Seq<char>, JsonModel)>,
    key: Seq<char>,
    value: JsonModel,
) -> Seq<(Seq<char>, JsonModel)>
    decreases entries.len(),
{
    if entries.len() == 0 {
        seq![(key, value)]
    } else if entries[0].0 == key {
        seq![(key, value)] + entries.drop_first()
    } else if text_less(key, entries[0].0) {
        seq![(key, value)] + entries
    } else {
        seq![entries[0]] + object_insert(entries.drop_first(), key, value)
    }
}

/// The entries of an object after inserting `entries` into `base`, one by
/// one and in order.
pub open spec fn insert_all(
    base: Seq<(Seq<char>, JsonModel)>,
    entries: Seq<(Seq<char>, JsonModel)>,
) -> Seq<(Seq<char>, JsonModel)>
    decreases entries.len(),
{
    if entries.len() == 0 {
        base
    } else {
        let rest = insert_all(base, entries.drop_last());
        object_insert(rest, entries.last().0, entries.last().1)
    }
}

/// Keys sorted, each once, as `serde_json::Map` holds them.
pub open spec fn sorted_entries(entries: Seq<(Seq<char>, JsonModel)>) -> bool {
    forall|i: int, j: int|
        0 <= i < j < entries.len() ==> text_less(#[trigger] entries[i].0, #[trigger] entries[j].0)
}

/// Inserting past a prefix of smaller, different keys keeps the prefix.
proof fn lemma_object_insert_prefix(
    s: Seq<(Seq<char>, JsonModel)>,
    k: Seq<char>,
    v: JsonModel,
    i: int,
)
    requires
        0 <= i <= s.len(),
        forall|j: int| 0 <= j < i ==> #[trigger] s[j].0 != k && !text_less(k, s[j].0),
    ensures
        object_insert(s, k, v) == s.take(i) + object_insert(s.skip(i), k, v),
    decreases i,
{
    if i == 0 {
        assert(s.skip(0) =~= s);
        assert(s.take(0) + object_insert(s, k, v) =~= object_insert(s, k, v));
    } else {
        let t = s.drop_first();
        assert forall|j: int| 0 <= j < i - 1 implies #[trigger] t[j].0 != k && !text_less(k, t[j].0) by {
            assert(t[j] == s[j + 1]);
        }
        lemma_object_insert_prefix(t, k, v, i - 1);
        assert(t.skip(i - 1) =~= s.skip(i));
        assert(seq![s[0]] + t.take(i - 1) =~= s.take(i));
        assert(object_insert(s, k, v) == seq![s[0]] + object_insert(t, k, v));
        assert(seq![s[0]] + (t.take(i - 1) + object_insert(t.skip(i - 1), k, v)) =~= s.take(i)
            + object_insert(s.skip(i), k, v));
    }
}

/// Inserts an entry into an object's entries as `serde_json::Map::insert`
/// does (see [`object_insert`]).
pub fn insert_entry(out: &mut Vec<JsonEntry>, e: JsonEntry)
    ensures
        entries_model(final(out)@) == object_insert(entries_model(old(out)@), e.key@, model(e.value)),
{
    proof {
        lemma_entries_model_index(out@);
    }
    let ghost s = entries_model(out@);
    let ghost k = e.key@;
    let ghost v = model(e.value);
    let mut i: usize = 0;
    while i < out.len() && !crate::text::str_eq(out[i].key.as_str(), e.key.as_str()) && !text_lt(
        e.key.as_str(),
        out[i].key.as_str(),
    )
        invariant
            i <= out.len(),
            out@ == old(out)@,
            s == entries_model(out@),
            s.len() == out.len(),
            k == e.key@,
            v == model(e.value),
            forall|j: int| 0 <= j < out.len() ==> #[trigger] s[j] == (out@[j].key@, model(out@[j].value)),
            forall|j: int| 0 <= j < i ==> #[trigger] s[j].0 != k && !text_less(k, s[j].0),
        decreases out.len() - i,
    {
        i = i + 1;
    }
    proof {
        lemma_object_insert_prefix(s, k, v, i as int);
    }
    let ghost before = out@;
    if i < out.len() && crate::text::str_eq(out[i].key.as_str(), e.key.as_str()) {
        out.set(i, e);
        proof {
            let t = s.skip(i as int);
            assert(t[0] == s[i as int]);
            assert(t.drop_first() =~= s.skip(i + 1));
            lemma_entries_model_index(out@);
            assert(entries_model(out@) =~= s.take(i as int) + (seq![(k, v)] + s.skip(i + 1)));
        }
    } else {
        out.insert(i, e);
        proof {
            let t = s.skip(i as int);
            if i < s.len() {
                assert(t[0] == s[i as int]);
            }
            lemma_entries_model_index(out@);
            assert(entries_model(out@) =~= s.take(i as int) + (seq![(k, v)] + t));
        }
    }
}

proof fn lemma_key_index_shift(
    x: (Seq<char>, JsonModel),
    s: Seq<(Seq<char>, JsonModel)>,
    q: Seq<char>,
    j: int,
)
    requires
        0 <= j,
    ensures
        key_index(seq![x] + s, q, j + 1) == match key_index(s, q, j) {
            Some(i) => Some(i + 1),
            None => None::<int>,
        },
    decreases s.len() - j,
{
    let t = seq![x] + s;
    if j < s.len() {
        assert(t[j + 1] == s[j]);
        lemma_key_index_shift(x, s, q, j + 1);
    }
}

/// Looking a key up in an object whose first entry is `x`.
pub proof fn lemma_lookup_prepend(x: (Seq<char>, JsonModel), s: Seq<(Seq<char>, JsonModel)>, q: Seq<char>)
    ensures
        lookup(seq![x] + s, q) == if x.0 == q {
            Some(x.1)
        } else {
            lookup(s, q)
        },
{
    let t = seq![x] + s;
    assert(t[0] == x);
    lemma_key_index_shift(x, s, q, 0);
    if let Some(i) = key_index(s, q, 0) {
        lemma_key_index_bounds(s, q, 0);
        assert(t[i + 1] == s[i]);
    }
}

proof fn lemma_key_index_bounds(s: Seq<(Seq<char>, JsonModel)>, q: Seq<char>, j: int)
    ensures
        key_index(s, q, j) matches Some(i) ==> j <= i < s.len() && s[i].0 == q,
    decreases s.len() - j,
{
    if 0 <= j < s.len() && s[j].0 != q {
        lemma_key_index_bounds(s, q, j + 1);
    }
}

/// After an insertion, the key reads the inserted value and every other key
/// reads as before.
pub proof fn lemma_lookup_insert(s: Seq<(Seq<char>, JsonModel)>, k: Seq<char>, v: JsonModel, q: Seq<char>)
    ensures
        lookup(object_insert(s, k, v), q) == if q == k {
            Some(v)
        } else {
            lookup(s, q)
        },
    decreases s.len(),
{
    if s.len() == 0 {
        lemma_lookup_prepend((k, v), s, q);
        assert(seq![(k, v)] + s =~= seq![(k, v)]);
        assert(key_index(s, q, 0) is None);
    } else {
        let rest = s.drop_first();
        assert(s =~= seq![s[0]] + rest);
        lemma_lookup_prepend(s[0], rest, q);
        if s[0].0 == k {
            lemma_lookup_prepend((k, v), rest, q);
        } else if text_less(k, s[0].0) {
            lemma_lookup_prepend((k, v), s, q);
        } else {
            lemma_lookup_insert(rest, k, v, q);
            lemma_lookup_prepend(s[0], object_insert(rest, k, v), q);
        }
    }
}

/// A sorted object is still sorted after an insertion.
pub proof fn lemma_object_insert_sorted(s: Seq<(Seq<char>, JsonModel)>, k: Seq<char>, v: JsonModel)
    requires
        sorted_entries(s),
    ensures
        sorted_entries(object_insert(s, k, v)),
        forall|b: Seq<char>|
            (forall|j: int| 0 <= j < s.len() ==> text_less(b, #[trigger] s[j].0)) && text_less(b, k)
                ==> (forall|j: int|
                0 <= j < object_insert(s, k, v).len() ==> text_less(b, #[trigger] object_insert(s, k, v)[j].0)),
    decreases s.len(),
{
    let r = object_insert(s, k, v);
    if s.len() == 0 {
    } else {
        let rest = s.drop_first();
        assert(s =~= seq![s[0]] + rest);
        assert(sorted_entries(rest)) by {
            assert forall|i: int, j: int| 0 <= i < j < rest.len() implies text_less(
                #[trigger] rest[i].0,
                #[trigger] rest[j].0,
            ) by {
                assert(text_less(s[i + 1].0, s[j + 1].0));
            }
        }
        if s[0].0 == k {
            assert forall|i: int, j: int| 0 <= i < j < r.len() implies text_less(
                #[trigger] r[i].0,
                #[trigger] r[j].0,
            ) by {
                assert(text_less(s[i].0, s[j].0));
            }
        } else if text_less(k, s[0].0) {
            assert forall|i: int, j: int| 0 <= i < j < r.len() implies text_less(
                #[trigger] r[i].0,
                #[trigger] r[j].0,
            ) by {
                if i == 0 {
                    if j > 1 {
                        assert(text_less(s[0].0, s[j - 1].0));
                        lemma_text_less_transitive(k, s[0].0, s[j - 1].0);
                    }
                } else {
                    assert(text_less(s[i - 1].0, s[j - 1].0));
                }
            }
        } else {
            lemma_text_less_total(k, s[0].0);
            lemma_object_insert_sorted(rest, k, v);
            let t = object_insert(rest, k, v);
            assert(forall|j: int| 0 <= j < rest.len() ==> text_less(s[0].0, #[trigger] rest[j].0)) by {
                assert forall|j: int| 0 <= j < rest.len() implies text_less(s[0].0, #[trigger] rest[j].0) by {
                    assert(rest[j] == s[j + 1]);
                }
            }
            assert forall|i: int, j: int| 0 <= i < j < r.len() implies text_less(
                #[trigger] r[i].0,
                #[trigger] r[j].0,
            ) by {
                if i == 0 {
                    assert(r[j] == t[j - 1]);
                } else {
                    assert(r[i] == t[i - 1]);
                    assert(r[j] == t[j - 1]);
                }
            }
        }
        assert forall|b: Seq<char>|
            (forall|j: int| 0 <= j < s.len() ==> text_less(b, #[trigger] s[j].0)) && text_less(b, k)
                implies (forall|j: int| 0 <= j < r.len() ==> text_less(b, #[trigger] r[j].0)) by {
            if s[0].0 == k {
                assert forall|j: int| 0 <= j < r.len() implies text_less(b, #[trigger] r[j].0) by {
                    if j > 0 {
                        assert(r[j] == s[j]);
                    }
                }
            } else if text_less(k, s[0].0) {
                assert forall|j: int| 0 <= j < r.len() implies text_less(b, #[trigger] r[j].0) by {
                    if j > 0 {
                        assert(r[j] == s[j - 1]);
                    }
                }
            } else {
                let t = object_insert(rest, k, v);
                assert(forall|j: int| 0 <= j < rest.len() ==> text_less(b, #[trigger] rest[j].0)) by {
                    assert forall|j: int| 0 <= j < rest.len() implies text_less(b, #[trigger] rest[j].0) by {
                        assert(rest[j] == s[j + 1]);
                    }
                }
                assert forall|j: int| 0 <= j < r.len() implies text_less(b, #[trigger] r[j].0) by {
                    if j > 0 {
                        assert(r[j] == t[j - 1]);
                    } else {
                        assert(r[0] == s[0]);
                    }
                }
            }
        }
    }
}

/// A key after every key goes at the end.
pub proof fn lemma_object_insert_last(s: Seq<(Seq<char>, JsonModel)>, k: Seq<char>, v: JsonModel)
    requires
        forall|j: int| 0 <= j < s.len() ==> text_less(#[trigger] s[j].0, k),
    ensures
        object_insert(s, k, v) == s.push((k, v)),
    decreases s.len(),
{
    if s.len() > 0 {
        let rest = s.drop_first();
        lemma_text_less_irreflexive(k);
        if text_less(k, s[0].0) {
            lemma_text_less_transitive(k, s[0].0, k);
        }
        assert forall|j: int| 0 <= j < rest.len() implies text_less(#[trigger] rest[j].0, k) by {
            assert(rest[j] == s[j + 1]);
        }
        lemma_object_insert_last(rest, k, v);
        assert(seq![s[0]] + rest.push((k, v)) =~= s.push((k, v)));
    } else {
        assert(seq![(k, v)] =~= s.push((k, v)));
    }
}

/// Inserting the entries of a sorted object, in order, into an empty one
/// gives that object.
pub proof fn lemma_insert_all_sorted(e: Seq<(Seq<char>, JsonModel)>)
    requires
        sorted_entries(e),
    ensures
        insert_all(Seq::empty(), e) == e,
    decreases e.len(),
{
    if e.len() > 0 {
        let front = e.drop_last();
        assert(sorted_entries(front)) by {
            assert forall|i: int, j: int| 0 <= i < j < front.len() implies text_less(
                #[trigger] front[i].0,
                #[trigger] front[j].0,
            ) by {
                assert(text_less(e[i].0, e[j].0));
            }
        }
        lemma_insert_all_sorted(front);
        assert forall|j: int| 0 <= j < front.len() implies text_less(#[trigger] front[j].0, e.last().0) by {
            assert(text_less(e[j].0, e[e.len() - 1].0));
        }
        lemma_object_insert_last(front, e.last().0, e.last().1);
        assert(front.push(e.last()) =~= e);
    }
}

/// Inserting two runs of entries is inserting the first, then the second.
pub proof fn lemma_insert_all_concat(
    m: Seq<(Seq<char>, JsonModel)>,
    a: Seq<(Seq<char>, JsonModel)>,
    b: Seq<(Seq<char>, JsonModel)>,
)
    ensures
        insert_all(m, a + b) == insert_all(insert_all(m, a), b),
    decreases b.len(),
{
    if b.len() == 0 {
        assert(a + b =~= a);
    } else {
        lemma_insert_all_concat(m, a, b.drop_last());
        assert((a + b).drop_last() =~= a + b.drop_last());
        assert((a + b).last() == b.last());
    }
}

/// Insertions keep an object sorted.
pub proof fn lemma_insert_all_keeps_sorted(m: Seq<(Seq<char>, JsonModel)>, e: Seq<(Seq<char>, JsonModel)>)
    requires
        sorted_entries(m),
    ensures
        sorted_entries(insert_all(m, e)),
    decreases e.len(),
{
    if e.len() > 0 {
        lemma_insert_all_keeps_sorted(m, e.drop_last());
        lemma_object_insert_sorted(insert_all(m, e.drop_last()), e.last().0, e.last().1);
    }
}

/// Insertions under other keys leave a key's value as it was.
pub proof fn lemma_lookup_insert_all_other(m: Seq<(Seq<char>, JsonModel)>, e: Seq<(Seq<char>, JsonModel)>, q: Seq<char>)
    requires
        forall|j: int| 0 <= j < e.len() ==> #[trigger] e[j].0 != q,
    ensures
        lookup(insert_all(m, e), q) == lookup(m, q),
    decreases e.len(),
{
    if e.len() > 0 {
        let front = e.drop_last();
        assert forall|j: int| 0 <= j < front.len() implies #[trigger] front[j].0 != q by {
            assert(front[j] == e[j]);
        }
        lemma_lookup_insert_all_other(m, front, q);
        assert(e[e.len() - 1].0 != q);
        lemma_lookup_insert(insert_all(m, front), e.last().0, e.last().1, q);
    }
}

} // verus!
