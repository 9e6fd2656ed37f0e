//! Request context for tracing and diagnostics.

use vstd::prelude::*;
use crate::text::{
    chars_of, lemma_text_less_irreflexive, lemma_text_less_total, lemma_text_less_transitive,
    string_from_chars, text_less, text_lt,
};

verus! {

/// Declares the trace identifier type of the `uuid` crate.
#[verifier::external_type_specification]
#[verifier::external_body]
pub struct ExUuid(uuid::Uuid);

/// A fresh time-ordered trace identifier (`uuid::Uuid::now_v7`).
///
/// The value depends on the clock and on random bits, so nothing is stated of it.
#[verifier::external_body]
pub(crate) fn new_trace_id() -> uuid::Uuid {
    uuid::Uuid::now_v7()
}

/// `Uuid` is `Copy`: a clone is the same identifier.
pub assume_specification[ <uuid::Uuid as Clone>::clone ](id: &uuid::Uuid) -> (copy: uuid::Uuid)
    ensures
        copy == *id,
;

/// Line breaks and tabs become spaces.
pub open spec fn flatten_char(c: char) -> char {
    if c == '\n' || c == '\r' || c == '\t' {
        ' '
    } else {
        c
    }
}

/// Value with line breaks and tabs replaced by spaces, cut to `max_len` characters.
pub open spec fn sanitized(s: Seq<char>, max_len: nat) -> Seq<char> {
    let flat = s.map_values(|c: char| flatten_char(c));
    if flat.len() <= max_len {
        flat
    } else {
        flat.take(max_len as int)
    }
}

/// Replaces line breaks and tabs with spaces and keeps at most `max_len` characters.
pub fn sanitize_value(value: &str, max_len: usize) -> (r: String)
    ensures
        r@ == sanitized(value@, max_len as nat),
{
    let v = chars_of(value);
    let mut out: Vec<char> = Vec::new();
    let mut i: usize = 0;
    let ghost flat = value@.map_values(|c: char| flatten_char(c));
    while i < v.len() && i < max_len
        invariant
            i <= v.len(),
            i <= max_len,
            v@ == value@,
            flat == value@.map_values(|c: char| flatten_char(c)),
            out@ == flat.take(i as int),
        decreases v.len() - i,
    {
        let c = v[i];
        let d = if c == '\n' || c == '\r' || c == '\t' {
            ' '
        } else {
            c
        };
        out.push(d);
        i = i + 1;
        assert(out@ == flat.take(i as int));
    }
    proof {
        if flat.len() <= max_len {
            assert(flat.take(i as int) == flat);
        }
    }
    string_from_chars(&out)
}

/// A tag list maps each key to at most one value.
pub open spec fn keys_unique(tags: Seq<(String, String)>) -> bool {
    forall|i: int, j: int| 0 <= i < j < tags.len() ==> tags[i].0@ != tags[j].0@
}

/// The list is sorted by key, each key once, as a `BTreeMap` holds its
/// entries.
pub open spec fn keys_sorted(tags: Seq<(String, String)>) -> bool {
    forall|i: int, j: int| 0 <= i < j < tags.len() ==> text_less(#[trigger] tags[i].0@, #[trigger] tags[j].0@)
}

/// A list sorted by key holds each key once.
pub proof fn lemma_sorted_keys_unique(tags: Seq<(String, String)>)
    requires
        keys_sorted(tags),
    ensures
        keys_unique(tags),
{
    assert forall|i: int, j: int| 0 <= i < j < tags.len() implies tags[i].0@ != tags[j].0@ by {
        lemma_text_less_irreflexive(tags[i].0@);
    }
}

/// Per-request diagnostic metadata.
#[derive(Debug, Clone)]
pub struct RequestContext {
    /// Request trace ID.
    pub trace_id: uuid::Uuid,
    /// Logical operation name.
    pub operation: String,
    /// Current attempt number (starts from 1).
    pub attempt: u32,
    /// Sanitized key-value tags, sorted by key, each key once.
    pub tags: Vec<(String, String)>,
}

impl RequestContext {
    /// The tag list is sorted by key, each key once.
    pub open spec fn wf(&self) -> bool {
        keys_sorted(self.tags@)
    }

    /// Sanitized key-value tags.
    pub open spec fn tag_map(&self) -> Map<Seq<char>, Seq<char>> {
        tags_to_map(self.tags@)
    }

    /// Creates a new request context for the operation: attempt 1, no tags,
    /// the name sanitized to 96 characters.
    pub fn new(operation: &str) -> (ctx: Self)
        ensures
            ctx.operation@ == sanitized(operation@, 96),
            ctx.attempt == 1,
            ctx.tag_map() == Map::<Seq<char>, Seq<char>>::empty(),
            ctx.wf(),
    {
        let ctx = RequestContext {
            trace_id: new_trace_id(),
            operation: sanitize_value(operation, 96),
            attempt: 1,
            tags: Vec::new(),
        };
        assert(ctx.tag_map() =~= Map::<Seq<char>, Seq<char>>::empty());
        ctx
    }

    /// Returns a context with an incremented attempt counter (saturating).
    pub fn next_attempt(self) -> (ctx: Self)
        ensures
            self.wf() ==> ctx.wf(),
            ctx.tags@ == self.tags@,
            ctx.trace_id == self.trace_id,
            ctx.operation == self.operation,
            ctx.attempt == (if self.attempt == u32::MAX {
                u32::MAX
            } else {
                (self.attempt + 1) as u32
            }),
            ctx.tag_map() == self.tag_map(),
    {
        let mut ctx = self;
        ctx.attempt = ctx.attempt.saturating_add(1);
        ctx
    }

    /// Adds a sanitized tag entry: the key cut to 48 characters, the value to
    /// 128; an existing value under the same key is replaced.
    pub fn insert_tag(&mut self, key: &str, value: &str)
        requires
            old(self).wf(),
        ensures
            final(self).wf(),
            final(self).tag_map() == old(self).tag_map().insert(
                sanitized(key@, 48),
                sanitized(value@, 128),
            ),
            final(self).attempt == old(self).attempt,
            final(self).operation == old(self).operation,
            final(self).trace_id == old(self).trace_id,
    {
        let k = sanitize_value(key, 48);
        let v = sanitize_value(value, 128);
        upsert_pair(&mut self.tags, k, v);
    }

    /// The value stored under a tag key, if any.
    pub fn tag(&self, key: &str) -> (value: Option<String>)
        requires
            self.wf(),
        ensures
            value matches Some(v) ==> self.tag_map().dom().contains(key@) && self.tag_map()[key@]
                == v@,
            value is None ==> !self.tag_map().dom().contains(key@),
    {
        proof {
            lemma_tags_contains(self.tags@);
            lemma_sorted_keys_unique(self.tags@);
        }
        let mut i: usize = 0;
        while i < self.tags.len()
            invariant
                i <= self.tags.len(),
                keys_unique(self.tags@),
                forall|j: int| 0 <= j < i ==> self.tags@[j].0@ != key@,
            decreases self.tags.len() - i,
        {
            if crate::text::str_eq(self.tags[i].0.as_str(), key) {
                proof {
                    lemma_tags_value(self.tags@, i as int);
                }
                return Some(self.tags[i].1.clone());
            }
            i = i + 1;
        }
        None
    }

    /// Number of tags.
    pub fn tag_count(&self) -> (n: usize)
        requires
            self.wf(),
        ensures
            n == self.tag_map().dom().len(),
    {
        proof {
            lemma_sorted_keys_unique(self.tags@);
            lemma_tags_len(self.tags@);
        }
        self.tags.len()
    }
}

/// Sets `key` to `value` in a list sorted by key: an entry with that key
/// gets the new value, otherwise the entry goes in at its sorted place
/// (`BTreeMap::insert`).
pub fn upsert_pair(pairs: &mut Vec<(String, String)>, key: String, value: String)
    requires
        keys_sorted(old(pairs)@),
    ensures
        keys_sorted(final(pairs)@),
        tags_to_map(final(pairs)@) == tags_to_map(old(pairs)@).insert(key@, value@),
{
    proof {
        lemma_sorted_keys_unique(pairs@);
    }
    let mut i: usize = 0;
    while i < pairs.len() && text_lt(pairs[i].0.as_str(), key.as_str())
        invariant
            i <= pairs.len(),
            pairs@ == old(pairs)@,
            keys_sorted(pairs@),
            keys_unique(pairs@),
            forall|j: int| 0 <= j < i ==> text_less(#[trigger] pairs@[j].0@, key@),
        decreases pairs.len() - i,
    {
        i = i + 1;
    }
    if i < pairs.len() && crate::text::str_eq(pairs[i].0.as_str(), key.as_str()) {
        let ghost before = pairs@;
        proof {
            lemma_tags_update(before, i as int, key, value);
            let after = before.update(i as int, (key, value));
            assert forall|a: int, b: int| 0 <= a < b < after.len() implies text_less(
                #[trigger] after[a].0@,
                #[trigger] after[b].0@,
            ) by {
                assert(text_less(before[a].0@, before[b].0@));
            }
        }
        pairs.set(i, (key, value));
        return;
    }
    let ghost before = pairs@;
    proof {
        assert forall|j: int| i <= j < before.len() implies text_less(key@, #[trigger] before[j].0@) by {
            let ki = before[i as int].0@;
            assert(!text_less(ki, key@));
            assert(ki != key@);
            lemma_text_less_total(ki, key@);
            if j > i {
                assert(text_less(ki, before[j].0@));
                lemma_text_less_transitive(key@, ki, before[j].0@);
            }
        }
        assert forall|j: int| 0 <= j < before.len() implies #[trigger] before[j].0@ != key@ by {
            if j < i {
                lemma_text_less_irreflexive(key@);
            } else {
                lemma_text_less_irreflexive(key@);
            }
        }
        lemma_tags_insert(before, i as int, key, value);
        let after = before.insert(i as int, (key, value));
        assert forall|a: int, b: int| 0 <= a < b < after.len() implies text_less(
            #[trigger] after[a].0@,
            #[trigger] after[b].0@,
        ) by {
            if b < i {
                assert(text_less(before[a].0@, before[b].0@));
            } else if b == i {
                assert(text_less(before[a].0@, key@));
            } else if a < i {
                assert(text_less(before[a].0@, key@));
                assert(text_less(key@, before[b - 1].0@));
                lemma_text_less_transitive(before[a].0@, key@, before[b - 1].0@);
            } else if a == i {
                assert(text_less(key@, before[b - 1].0@));
            } else {
                assert(text_less(before[a - 1].0@, before[b - 1].0@));
            }
        }
    }
    pairs.insert(i, (key, value));
}

/// Inserting an entry with a new key, anywhere, adds that key to the map.
pub proof fn lemma_tags_insert(tags: Seq<(String, String)>, i: int, key: String, value: String)
    requires
        keys_unique(tags),
        0 <= i <= tags.len(),
        forall|j: int| 0 <= j < tags.len() ==> #[trigger] tags[j].0@ != key@,
    ensures
        keys_unique(tags.insert(i, (key, value))),
        tags_to_map(tags.insert(i, (key, value))) == tags_to_map(tags).insert(key@, value@),
{
    let t2 = tags.insert(i, (key, value));
    assert(t2[i] == (key, value));
    assert forall|a: int, b: int| 0 <= a < b < t2.len() implies t2[a].0@ != t2[b].0@ by {
        if a < i && b > i {
            assert(t2[b] == tags[b - 1]);
        } else if a > i {
            assert(t2[a] == tags[a - 1]);
            assert(t2[b] == tags[b - 1]);
        } else if b < i {
        } else if a == i {
            assert(t2[b] == tags[b - 1]);
        }
    }
    lemma_tags_contains(tags);
    lemma_tags_contains(t2);
    let m1 = tags_to_map(t2);
    let m2 = tags_to_map(tags).insert(key@, value@);
    assert forall|k: Seq<char>| #[trigger] m1.dom().contains(k) == m2.dom().contains(k) by {
        if m2.dom().contains(k) && k != key@ {
            let j = choose|j: int| 0 <= j < tags.len() && tags[j].0@ == k;
            if j < i {
                assert(t2[j] == tags[j]);
            } else {
                assert(t2[j + 1] == tags[j]);
            }
        }
        if m1.dom().contains(k) && k != key@ {
            let j = choose|j: int| 0 <= j < t2.len() && t2[j].0@ == k;
            if j < i {
                assert(t2[j] == tags[j]);
            } else if j > i {
                assert(t2[j] == tags[j - 1]);
            }
        }
    }
    assert forall|k: Seq<char>| m1.dom().contains(k) implies #[trigger] m1[k] == m2[k] by {
        if k == key@ {
            lemma_tags_value(t2, i);
        } else {
            let j = choose|j: int| 0 <= j < tags.len() && tags[j].0@ == k;
            lemma_tags_value(tags, j);
            if j < i {
                assert(t2[j] == tags[j]);
                lemma_tags_value(t2, j);
            } else {
                assert(t2[j + 1] == tags[j]);
                lemma_tags_value(t2, j + 1);
            }
        }
    }
    assert(m1 =~= m2);
}

/// Copies of the pairs of a key-value list.
pub fn clone_pairs(pairs: &Vec<(String, String)>) -> (c: Vec<(String, String)>)
    ensures
        c@.len() == pairs@.len(),
        forall|i: int| 0 <= i < c@.len() ==> #[trigger] c@[i].0@ == pairs@[i].0@ && c@[i].1@
            == pairs@[i].1@,
        keys_unique(pairs@) ==> keys_unique(c@),
        keys_sorted(pairs@) ==> keys_sorted(c@),
        tags_to_map(c@) == tags_to_map(pairs@),
{
    let mut out: Vec<(String, String)> = Vec::new();
    let mut i: usize = 0;
    while i < pairs.len()
        invariant
            i <= pairs.len(),
            out@.len() == i,
            forall|j: int| 0 <= j < i ==> #[trigger] out@[j].0@ == pairs@[j].0@ && out@[j].1@
                == pairs@[j].1@,
            tags_to_map(out@) == tags_to_map(pairs@.take(i as int)),
        decreases pairs.len() - i,
    {
        let ghost before = out@;
        out.push((pairs[i].0.clone(), pairs[i].1.clone()));
        proof {
            assert(out@.drop_last() == before);
            assert(pairs@.take(i + 1).drop_last() == pairs@.take(i as int));
        }
        i = i + 1;
    }
    assert(pairs@.take(pairs.len() as int) == pairs@);
    out
}

/// The map that a tag list describes.
pub open spec fn tags_to_map(tags: Seq<(String, String)>) -> Map<Seq<char>, Seq<char>>
    decreases tags.len(),
{
    if tags.len() == 0 {
        Map::empty()
    } else {
        tags_to_map(tags.drop_last()).insert(tags.last().0@, tags.last().1@)
    }
}

pub proof fn lemma_tags_contains(tags: Seq<(String, String)>)
    ensures
        forall|k: Seq<char>| #[trigger]
            tags_to_map(tags).dom().contains(k) <==> exists|i: int|
                0 <= i < tags.len() && tags[i].0@ == k,
    decreases tags.len(),
{
    if tags.len() > 0 {
        let rest = tags.drop_last();
        lemma_tags_contains(rest);
        assert forall|k: Seq<char>| #[trigger] tags_to_map(tags).dom().contains(k) implies exists|
            i: int,
        | 0 <= i < tags.len() && tags[i].0@ == k by {
            if k == tags.last().0@ {
                assert(tags[tags.len() - 1].0@ == k);
            } else {
                assert(tags_to_map(rest).dom().contains(k));
                let i = choose|i: int| 0 <= i < rest.len() && rest[i].0@ == k;
                assert(tags[i].0@ == k);
            }
        }
        assert forall|k: Seq<char>|
            (exists|i: int| 0 <= i < tags.len() && tags[i].0@ == k) implies #[trigger] tags_to_map(
            tags,
        ).dom().contains(k) by {
            let i = choose|i: int| 0 <= i < tags.len() && tags[i].0@ == k;
            if i < rest.len() {
                assert(rest[i].0@ == k);
                assert(tags_to_map(rest).dom().contains(k));
            }
        }
    }
}

pub proof fn lemma_tags_value(tags: Seq<(String, String)>, i: int)
    requires
        keys_unique(tags),
        0 <= i < tags.len(),
    ensures
        tags_to_map(tags).dom().contains(tags[i].0@),
        tags_to_map(tags)[tags[i].0@] == tags[i].1@,
    decreases tags.len(),
{
    lemma_tags_contains(tags);
    if i < tags.len() - 1 {
        let rest = tags.drop_last();
        assert(rest[i] == tags[i]);
        lemma_tags_value(rest, i);
    }
}

pub proof fn lemma_tags_update(tags: Seq<(String, String)>, i: int, key: String, value: String)
    requires
        keys_unique(tags),
        0 <= i < tags.len(),
        tags[i].0@ == key@,
    ensures
        keys_unique(tags.update(i, (key, value))),
        tags_to_map(tags.update(i, (key, value))) == tags_to_map(tags).insert(key@, value@),
    decreases tags.len(),
{
    let t2 = tags.update(i, (key, value));
    if i == tags.len() - 1 {
        assert(t2.drop_last() == tags.drop_last());
        lemma_tags_contains(tags.drop_last());
        assert(tags_to_map(tags).insert(key@, value@) =~= tags_to_map(tags.drop_last()).insert(
            key@,
            value@,
        ));
    } else {
        let rest = tags.drop_last();
        lemma_tags_update(rest, i, key, value);
        assert(t2.drop_last() == rest.update(i, (key, value)));
        assert(t2.last() == tags.last());
        assert(tags.last().0@ != key@);
        assert(tags_to_map(t2) =~= tags_to_map(tags).insert(key@, value@));
    }
}

pub proof fn lemma_tags_len(tags: Seq<(String, String)>)
    requires
        keys_unique(tags),
    ensures
        tags_to_map(tags).dom().finite(),
        tags_to_map(tags).dom().len() == tags.len(),
    decreases tags.len(),
{
    if tags.len() > 0 {
        let rest = tags.drop_last();
        lemma_tags_len(rest);
        lemma_tags_contains(rest);
        assert(!tags_to_map(rest).dom().contains(tags.last().0@)) by {
            if tags_to_map(rest).dom().contains(tags.last().0@) {
                let i = choose|i: int| 0 <= i < rest.len() && rest[i].0@ == tags.last().0@;
                assert(tags[i].0@ != tags[tags.len() - 1].0@);
            }
        }
    }
}

} // verus!
