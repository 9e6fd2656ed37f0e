//! Secret redaction helpers for diagnostics payloads.

use vstd::prelude::*;
use vstd::string::StringExecFns;
use crate::json::{JsonEntry, JsonModel, JsonValue, clone_value, entries_model, items_model, model};
use crate::text::{
    ascii_lower, chars_of, find_chars, find_from, lemma_find_from_bounds, occurs_at, push_char,
    string_from_chars, to_ascii_lower,
};

verus! {

/// Redaction behavior configuration.
#[derive(Debug, Clone, PartialEq, Eq)]
pub struct RedactionConfig {
    /// Replacement mask for sensitive values.
    pub mask: String,
    /// Maximum string length for non-sensitive payload fragments.
    pub max_string_len: usize,
}

impl Default for RedactionConfig {
    fn default() -> (config: Self)
        ensures
            config.mask@ == "***"@,
            config.max_string_len == 256,
    {
        RedactionConfig { mask: String::from_str("***"), max_string_len: 256 }
    }
}

/// The text cut to `max_len` characters, with `…` appended when it was longer.
pub open spec fn truncated(s: Seq<char>, max_len: nat) -> Seq<char> {
    if s.len() <= max_len {
        s
    } else {
        s.take(max_len as int) + "…"@
    }
}

/// Cuts a text to `max_len` characters and marks the cut with `…`.
pub fn truncate_string(value: &str, max_len: usize) -> (r: String)
    ensures
        r@ == truncated(value@, max_len as nat),
{
    let v = chars_of(value);
    if v.len() <= max_len {
        return crate::text::owned(value);
    }
    let mut out = String::new();
    let mut i: usize = 0;
    while i < max_len
        invariant
            i <= max_len < v.len(),
            out@ == v@.take(i as int),
        decreases max_len - i,
    {
        push_char(&mut out, v[i]);
        i = i + 1;
        assert(out@ == v@.take(i as int));
    }
    out.append("…");
    out
}

/// The text with ASCII letters lowercased.
pub open spec fn lower(s: Seq<char>) -> Seq<char> {
    s.map_values(|c: char| ascii_lower(c))
}

fn lowered(v: &Vec<char>) -> (r: Vec<char>)
    ensures
        r@ == lower(v@),
{
    let mut out: Vec<char> = Vec::new();
    let mut i: usize = 0;
    while i < v.len()
        invariant
            i <= v.len(),
            out@ == lower(v@).take(i as int),
        decreases v.len() - i,
    {
        out.push(to_ascii_lower(v[i]));
        i = i + 1;
        assert(out@ == lower(v@).take(i as int));
    }
    assert(lower(v@).take(v.len() as int) == lower(v@));
    out
}

/// A key names a secret when, ignoring ASCII case, it contains `token`,
/// `secret`, `authorization` or `password`.
pub open spec fn sensitive_key(key: Seq<char>) -> bool {
    let k = lower(key);
    find_from(k, "token"@, 0) is Some || find_from(k, "secret"@, 0) is Some || find_from(
        k,
        "authorization"@,
        0,
    ) is Some || find_from(k, "password"@, 0) is Some
}

/// Checks whether a key names a secret.
pub fn is_sensitive_key(key: &str) -> (r: bool)
    ensures
        r == sensitive_key(key@),
{
    let k = lowered(&chars_of(key));
    find_chars(&k, &chars_of("token"), 0).is_some() || find_chars(&k, &chars_of("secret"), 0).is_some()
        || find_chars(&k, &chars_of("authorization"), 0).is_some() || find_chars(
        &k,
        &chars_of("password"),
        0,
    ).is_some()
}

/// First index at or after `i` that is not a space or quote.
pub open spec fn skip_quotes(s: Seq<char>, i: int) -> int
    decreases s.len() - i,
{
    if 0 <= i < s.len() && (s[i] == ' ' || s[i] == '"' || s[i] == '\'') {
        skip_quotes(s, i + 1)
    } else {
        i
    }
}

/// A character that ends a masked value in [`redact_text`].
pub open spec fn text_value_stop(c: char) -> bool {
    c == '&' || c == ' ' || c == '\n' || c == '\r' || c == '"' || c == '\''
}

/// First index at or after `start` holding a stop character, or the length.
pub open spec fn text_value_end(s: Seq<char>, start: int) -> int
    decreases s.len() - start,
{
    if start < 0 || start >= s.len() {
        s.len() as int
    } else if text_value_stop(s[start]) {
        start
    } else {
        text_value_end(s, start + 1)
    }
}

pub proof fn lemma_skip_quotes(s: Seq<char>, i: int)
    requires
        0 <= i <= s.len(),
    ensures
        i <= skip_quotes(s, i) <= s.len(),
    decreases s.len() - i,
{
    if i < s.len() && (s[i] == ' ' || s[i] == '"' || s[i] == '\'') {
        lemma_skip_quotes(s, i + 1);
    }
}

pub proof fn lemma_text_value_end(s: Seq<char>, start: int)
    requires
        0 <= start <= s.len(),
    ensures
        start <= text_value_end(s, start) <= s.len(),
    decreases s.len() - start,
{
    if start < s.len() && !text_value_stop(s[start]) {
        lemma_text_value_end(s, start + 1);
    }
}

/// Masks every value that follows an occurrence of `marker` (ASCII case
/// ignored) at or after `from`: spaces and quotes after the marker are kept,
/// and the value runs to the next stop character. Scanning resumes after
/// each mask, or after the marker when its value is empty.
pub open spec fn scan_masked(s: Seq<char>, marker: Seq<char>, mask: Seq<char>, from: int) -> Seq<char>
    decreases s.len() - from,
{
    if marker.len() == 0 || from < 0 || from > s.len() {
        s
    } else {
        match find_from(lower(s), marker, from) {
            None => s,
            Some(ms) => {
                proof {
                    lemma_find_from_bounds(lower(s), marker, from);
                    lemma_skip_quotes(s, ms + marker.len());
                }
                let vs = skip_quotes(s, ms + marker.len());
                proof {
                    lemma_text_value_end(s, vs);
                }
                let ve = text_value_end(s, vs);
                if ve <= vs {
                    scan_masked(s, marker, mask, ms + marker.len())
                } else {
                    scan_masked(s.take(vs) + mask + s.skip(ve), marker, mask, vs + mask.len())
                }
            },
        }
    }
}

fn redact_marker_values(output: Vec<char>, marker: &str, mask: &Vec<char>) -> (r: Vec<char>)
    requires
        marker@.len() > 0,
    ensures
        r@ == scan_masked(output@, marker@, mask@, 0),
{
    let m = chars_of(marker);
    let mut out = output;
    let mut search_from: usize = 0;
    loop
        invariant
            m@ == marker@,
            m@.len() > 0,
            search_from <= out.len(),
            scan_masked(out@, m@, mask@, search_from as int) == scan_masked(output@, m@, mask@, 0),
        decreases out.len() - search_from,
    {
        let hay = lowered(&out);
        let found = find_chars(&hay, &m, search_from);
        match found {
            None => {
                return out;
            },
            Some(ms) => {
                proof {
                    lemma_find_from_bounds(lower(out@), m@, search_from as int);
                    lemma_skip_quotes(out@, ms + m@.len());
                }
                let total = out.len();
                let mut vs = ms + m.len();
                while vs < out.len() && (out[vs] == ' ' || out[vs] == '"' || out[vs] == '\'')
                    invariant
                        ms + m@.len() <= vs <= out.len(),
                        skip_quotes(out@, ms + m@.len()) == skip_quotes(out@, vs as int),
                    decreases out.len() - vs,
                {
                    vs = vs + 1;
                }
                proof {
                    lemma_text_value_end(out@, vs as int);
                }
                let mut ve = vs;
                while ve < out.len() && !(out[ve] == '&' || out[ve] == ' ' || out[ve] == '\n'
                    || out[ve] == '\r' || out[ve] == '"' || out[ve] == '\'')
                    invariant
                        vs <= ve <= out.len(),
                        text_value_end(out@, vs as int) == text_value_end(out@, ve as int),
                    decreases out.len() - ve,
                {
                    ve = ve + 1;
                }
                if ve <= vs {
                    search_from = ms + m.len();
                } else {
                    let mut next: Vec<char> = Vec::new();
                    let mut k: usize = 0;
                    while k < vs
                        invariant
                            k <= vs <= out.len(),
                            next@ == out@.take(k as int),
                        decreases vs - k,
                    {
                        next.push(out[k]);
                        k = k + 1;
                        assert(next@ == out@.take(k as int));
                    }
                    let mut k: usize = 0;
                    while k < mask.len()
                        invariant
                            k <= mask.len(),
                            next@ == out@.take(vs as int) + mask@.take(k as int),
                        decreases mask.len() - k,
                    {
                        next.push(mask[k]);
                        k = k + 1;
                        assert(next@ == out@.take(vs as int) + mask@.take(k as int));
                    }
                    assert(mask@.take(mask.len() as int) == mask@);
                    let mut k: usize = ve;
                    while k < out.len()
                        invariant
                            ve <= k <= out.len(),
                            next@ == out@.take(vs as int) + mask@ + out@.subrange(ve as int, k as int),
                        decreases out.len() - k,
                    {
                        next.push(out[k]);
                        k = k + 1;
                        assert(next@ == out@.take(vs as int) + mask@ + out@.subrange(ve as int, k as int));
                    }
                    assert(out@.subrange(ve as int, out.len() as int) == out@.skip(ve as int));
                    let nl = next.len();
                    assert(vs + mask.len() <= nl);
                    search_from = vs + mask.len();
                    out = next;
                }
            },
        }
    }
}

/// Markers whose values [`redact_text`] masks, in the order applied.
pub open spec fn text_markers() -> Seq<Seq<char>> {
    seq![
        "authorization:"@,
        "authorization="@,
        "token="@,
        "access_token="@,
        "secret="@,
        "webhook_secret="@,
    ]
}

/// Applies [`scan_masked`] for each marker in turn.
pub open spec fn scan_all(s: Seq<char>, markers: Seq<Seq<char>>, mask: Seq<char>) -> Seq<char>
    decreases markers.len(),
{
    if markers.len() == 0 {
        s
    } else {
        scan_all(scan_masked(s, markers[0], mask, 0), markers.drop_first(), mask)
    }
}

/// What [`redact_text`] returns: every marker's values masked, then the
/// text truncated.
pub open spec fn redacted_text(s: Seq<char>, mask: Seq<char>, max_len: nat) -> Seq<char> {
    truncated(scan_all(s, text_markers(), mask), max_len)
}

/// Redacts sensitive fragments in plain text.
pub fn redact_text(input: &str, config: &RedactionConfig) -> (r: String)
    ensures
        r@ == redacted_text(input@, config.mask@, config.max_string_len as nat),
{
    let mask = chars_of(config.mask.as_str());
    proof {
        reveal_strlit("authorization:");
        reveal_strlit("authorization=");
        reveal_strlit("token=");
        reveal_strlit("access_token=");
        reveal_strlit("secret=");
        reveal_strlit("webhook_secret=");
    }
    let v = chars_of(input);
    let v = redact_marker_values(v, "authorization:", &mask);
    let v = redact_marker_values(v, "authorization=", &mask);
    let v = redact_marker_values(v, "token=", &mask);
    let v = redact_marker_values(v, "access_token=", &mask);
    let v = redact_marker_values(v, "secret=", &mask);
    let v = redact_marker_values(v, "webhook_secret=", &mask);
    proof {
        reveal_with_fuel(scan_all, 7);
        let m = text_markers();
        assert(m.drop_first().drop_first().drop_first().drop_first().drop_first().drop_first().len() == 0);
        assert(m[0] == "authorization:"@);
        assert(m.drop_first()[0] == "authorization="@);
        assert(m.drop_first().drop_first()[0] == "token="@);
        assert(m.drop_first().drop_first().drop_first()[0] == "access_token="@);
        assert(m.drop_first().drop_first().drop_first().drop_first()[0] == "secret="@);
        assert(m.drop_first().drop_first().drop_first().drop_first().drop_first()[0] == "webhook_secret="@);
    }
    let s = string_from_chars(&v);
    truncate_string(s.as_str(), config.max_string_len)
}

/// `=` or `:`, the characters that end every marker.
pub open spec fn marker_end(c: char) -> bool {
    c == '=' || c == ':'
}

/// A text that could follow a marker as a value: no stop characters and no
/// marker ends.
pub open spec fn plain_value(t: Seq<char>) -> bool {
    forall|i: int| 0 <= i < t.len() ==> !text_value_stop(#[trigger] t[i]) && !marker_end(t[i])
}

/// A prefix that ends with a marker end and holds no other one, read with
/// ASCII case ignored.
pub open spec fn single_marker_end(p: Seq<char>) -> bool {
    &&& p.len() >= 1
    &&& marker_end(lower(p)[p.len() - 1])
    &&& forall|i: int| 0 <= i < p.len() - 1 ==> !marker_end(#[trigger] lower(p)[i])
}

proof fn lemma_lower_marker_end(c: char)
    ensures
        marker_end(ascii_lower(c)) == marker_end(c),
        text_value_stop(ascii_lower(c)) == text_value_stop(c),
{
    if 'A' <= c && c <= 'Z' {
        assert('a' <= ascii_lower(c) && ascii_lower(c) <= 'z');
    }
}

proof fn lemma_lower_concat(p: Seq<char>, t: Seq<char>)
    ensures
        lower(p + t) == lower(p) + lower(t),
        lower(p).len() == p.len(),
{
    assert(lower(p + t) =~= lower(p) + lower(t));
}

/// In a text whose only marker end is at `q`, a marker occurs only where it
/// ends at `q`.
pub proof fn lemma_find_marker(h: Seq<char>, m: Seq<char>, q: int, from: int)
    requires
        0 <= q < h.len(),
        marker_end(h[q]),
        forall|i: int| 0 <= i < h.len() && i != q ==> !marker_end(#[trigger] h[i]),
        m.len() >= 1,
        marker_end(m[m.len() - 1]),
        0 <= from,
    ensures
        find_from(h, m, from) == if from <= q + 1 - m.len() && occurs_at(h, m, q + 1 - m.len()) {
            Some(q + 1 - m.len())
        } else {
            None::<int>
        },
{
    lemma_find_from_bounds(h, m, from);
    assert forall|j: int| occurs_at(h, m, j) implies j == q + 1 - m.len() by {
        assert(h.subrange(j, j + m.len())[m.len() - 1] == h[j + m.len() - 1]);
    }
}

/// Scanning for one marker in `p + t`, where `p` ends with the only marker
/// end and `t` is a plain value: when the marker ends `p`, the value becomes
/// the mask; otherwise nothing changes.
proof fn lemma_scan_one(p: Seq<char>, t: Seq<char>, m: Seq<char>, mask: Seq<char>)
    requires
        single_marker_end(p),
        plain_value(t),
        t.len() >= 1,
        m.len() >= 1,
        marker_end(m[m.len() - 1]),
    ensures
        scan_masked(p + t, m, mask, 0) == if p.len() >= m.len() && lower(p).subrange(
            p.len() - m.len(),
            p.len() as int,
        ) == m {
            p + mask
        } else {
            p + t
        },
{
    let s = p + t;
    let q = p.len() - 1;
    lemma_lower_concat(p, t);
    let h = lower(s);
    assert forall|i: int| 0 <= i < h.len() && i != q implies !marker_end(#[trigger] h[i]) by {
        if i >= p.len() {
            lemma_lower_marker_end(t[i - p.len()]);
            assert(h[i] == ascii_lower(t[i - p.len()]));
        } else {
            assert(h[i] == lower(p)[i]);
        }
    }
    assert(h[q] == lower(p)[q]);
    lemma_find_marker(h, m, q, 0);
    let hit = p.len() >= m.len() && lower(p).subrange(p.len() - m.len(), p.len() as int) == m;
    if p.len() >= m.len() {
        assert(h.subrange(p.len() - m.len(), p.len() as int) =~= lower(p).subrange(
            p.len() - m.len(),
            p.len() as int,
        ));
    }
    if hit {
        let ms = q + 1 - m.len();
        assert(skip_quotes(s, ms + m.len()) == p.len()) by {
            assert(s[p.len() as int] == t[0]);
        }
        assert forall|j: int| p.len() <= j < s.len() implies !text_value_stop(#[trigger] s[j]) by {
            assert(s[j] == t[j - p.len()]);
        }
        lemma_text_value_end_plain(s, p.len() as int);
        let r = s.take(p.len() as int) + mask + s.skip(s.len() as int);
        assert(r =~= p + mask);
        assert(find_from(lower(r), m, (p.len() + mask.len()) as int) is None);
        assert(scan_masked(r, m, mask, (p.len() + mask.len()) as int) == r);
        assert(find_from(h, m, 0) == Some(ms));
        assert(scan_masked(s, m, mask, 0) == scan_masked(r, m, mask, (p.len() + mask.len()) as int));
    } else {
        assert(find_from(h, m, 0) is None);
    }
}

proof fn lemma_text_value_end_plain(s: Seq<char>, start: int)
    requires
        0 <= start <= s.len(),
        forall|j: int| start <= j < s.len() ==> !text_value_stop(#[trigger] s[j]),
    ensures
        text_value_end(s, start) == s.len(),
    decreases s.len() - start,
{
    if start < s.len() {
        lemma_text_value_end_plain(s, start + 1);
    }
}

/// A text without marker ends is left as it is by every scan.
pub proof fn lemma_scan_all_no_marker(s: Seq<char>, markers: Seq<Seq<char>>, mask: Seq<char>)
    requires
        forall|i: int| 0 <= i < s.len() ==> !marker_end(#[trigger] s[i]),
        forall|i: int| 0 <= i < markers.len() ==> (#[trigger] markers[i]).len() >= 1 && marker_end(
            markers[i][markers[i].len() - 1],
        ),
    ensures
        scan_all(s, markers, mask) == s,
    decreases markers.len(),
{
    if markers.len() > 0 {
        let m = markers[0];
        let h = lower(s);
        assert forall|j: int| !occurs_at(h, m, j) by {
            if occurs_at(h, m, j) {
                assert(h.subrange(j, j + m.len())[m.len() - 1] == h[j + m.len() - 1]);
                lemma_lower_marker_end(s[j + m.len() - 1]);
            }
        }
        lemma_find_from_bounds(h, m, 0);
        assert(scan_masked(s, m, mask, 0) == s);
        let rest = markers.drop_first();
        assert forall|i: int| 0 <= i < rest.len() implies (#[trigger] rest[i]).len() >= 1 && marker_end(
            rest[i][rest[i].len() - 1],
        ) by {
            assert(rest[i] == markers[i + 1]);
        }
        lemma_scan_all_no_marker(s, rest, mask);
    }
}

/// Scanning for each of the markers in turn masks the value after `p`
/// exactly when some marker ends `p` (ASCII case ignored).
pub proof fn lemma_scan_all_marker_prefix(p: Seq<char>, t: Seq<char>, markers: Seq<Seq<char>>, mask: Seq<char>)
    requires
        single_marker_end(p),
        plain_value(t),
        t.len() >= 1,
        plain_value(mask),
        mask.len() >= 1,
        forall|i: int| 0 <= i < markers.len() ==> (#[trigger] markers[i]).len() >= 1 && marker_end(
            markers[i][markers[i].len() - 1],
        ),
    ensures
        scan_all(p + t, markers, mask) == if exists|i: int|
            0 <= i < markers.len() && p.len() >= (#[trigger] markers[i]).len() && lower(p).subrange(
                p.len() - markers[i].len(),
                p.len() as int,
            ) == markers[i] {
            p + mask
        } else {
            p + t
        },
    decreases markers.len(),
{
    if markers.len() > 0 {
        let m = markers[0];
        lemma_scan_one(p, t, m, mask);
        let rest = markers.drop_first();
        assert forall|i: int| 0 <= i < rest.len() implies (#[trigger] rest[i]).len() >= 1 && marker_end(
            rest[i][rest[i].len() - 1],
        ) by {
            assert(rest[i] == markers[i + 1]);
        }
        let hit = p.len() >= m.len() && lower(p).subrange(p.len() - m.len(), p.len() as int) == m;
        if hit {
            lemma_scan_all_marker_prefix(p, mask, rest, mask);
        } else {
            lemma_scan_all_marker_prefix(p, t, rest, mask);
        }
        let any = exists|i: int|
            0 <= i < markers.len() && p.len() >= (#[trigger] markers[i]).len() && lower(p).subrange(
                p.len() - markers[i].len(),
                p.len() as int,
            ) == markers[i];
        let any_rest = exists|i: int|
            0 <= i < rest.len() && p.len() >= (#[trigger] rest[i]).len() && lower(p).subrange(
                p.len() - rest[i].len(),
                p.len() as int,
            ) == rest[i];
        if any_rest {
            let i = choose|i: int|
                0 <= i < rest.len() && p.len() >= (#[trigger] rest[i]).len() && lower(p).subrange(
                    p.len() - rest[i].len(),
                    p.len() as int,
                ) == rest[i];
            assert(rest[i] == markers[i + 1]);
        }
        if any && !hit {
            let i = choose|i: int|
                0 <= i < markers.len() && p.len() >= (#[trigger] markers[i]).len() && lower(p).subrange(
                    p.len() - markers[i].len(),
                    p.len() as int,
                ) == markers[i];
            assert(i != 0);
            assert(rest[i - 1] == markers[i]);
        }
    }
}

/// What [`redact_json`] makes of a value: sensitive keys get the mask,
/// strings are truncated, arrays and objects are walked.
pub open spec fn redact_model(m: JsonModel, mask: Seq<char>, max_len: nat) -> JsonModel
    decreases m, 0nat,
{
    match m {
        JsonModel::Object(entries) => JsonModel::Object(redact_entries(entries, mask, max_len)),
        JsonModel::Array(items) => JsonModel::Array(redact_items(items, mask, max_len)),
        JsonModel::Text(t) => JsonModel::Text(truncated(t, max_len)),
        _ => m,
    }
}

/// [`redact_model`] applied to each item.
pub open spec fn redact_items(items: Seq<JsonModel>, mask: Seq<char>, max_len: nat) -> Seq<JsonModel>
    decreases items, 1nat,
{
    if items.len() == 0 {
        Seq::empty()
    } else {
        redact_items(items.drop_last(), mask, max_len).push(
            redact_model(items.last(), mask, max_len),
        )
    }
}

/// Entries with sensitive keys masked and other values redacted.
pub open spec fn redact_entries(entries: Seq<(Seq<char>, JsonModel)>, mask: Seq<char>, max_len: nat) -> Seq<
    (Seq<char>, JsonModel),
>
    decreases entries, 1nat,
{
    if entries.len() == 0 {
        Seq::empty()
    } else {
        let (k, v) = entries.last();
        redact_entries(entries.drop_last(), mask, max_len).push(
            (
                k,
                if sensitive_key(k) {
                    JsonModel::Text(mask)
                } else {
                    redact_model(v, mask, max_len)
                },
            ),
        )
    }
}

/// Redacts sensitive fields in JSON payload recursively.
pub fn redact_json(value: &JsonValue, config: &RedactionConfig) -> (r: JsonValue)
    ensures
        model(r) == redact_model(model(*value), config.mask@, config.max_string_len as nat),
    decreases *value, 0nat,
{
    match value {
        JsonValue::Object(entries) => JsonValue::Object(redact_entry_vec(entries, config)),
        JsonValue::Array(items) => JsonValue::Array(redact_item_vec(items, config)),
        JsonValue::String(text) => JsonValue::String(truncate_string(text.as_str(), config.max_string_len)),
        _ => clone_value(value),
    }
}

fn redact_item_vec(items: &Vec<JsonValue>, config: &RedactionConfig) -> (r: Vec<JsonValue>)
    ensures
        items_model(r@) == redact_items(items_model(items@), config.mask@, config.max_string_len as nat),
    decreases *items, 1nat,
{
    let mut out: Vec<JsonValue> = Vec::new();
    let mut i: usize = 0;
    while i < items.len()
        invariant
            i <= items.len(),
            items_model(out@) == redact_items(
                items_model(items@.take(i as int)),
                config.mask@,
                config.max_string_len as nat,
            ),
        decreases items.len() - i,
    {
        let c = redact_json(&items[i], config);
        let ghost before = out@;
        out.push(c);
        proof {
            assert(out@.drop_last() == before);
            assert(items@.take(i + 1).drop_last() == items@.take(i as int));
            assert(items@.take(i + 1).last() == items@[i as int]);
            assert(items_model(items@.take(i + 1)) == items_model(items@.take(i as int)).push(model(items@[i as int])));
            assert(items_model(items@.take(i + 1)).drop_last() == items_model(items@.take(i as int)));
        }
        i = i + 1;
    }
    assert(items@.take(items.len() as int) == items@);
    out
}

fn redact_entry_vec(entries: &Vec<JsonEntry>, config: &RedactionConfig) -> (r: Vec<JsonEntry>)
    ensures
        entries_model(r@) == redact_entries(
            entries_model(entries@),
            config.mask@,
            config.max_string_len as nat,
        ),
    decreases *entries, 1nat,
{
    let mut out: Vec<JsonEntry> = Vec::new();
    let mut i: usize = 0;
    while i < entries.len()
        invariant
            i <= entries.len(),
            entries_model(out@) == redact_entries(
                entries_model(entries@.take(i as int)),
                config.mask@,
                config.max_string_len as nat,
            ),
        decreases entries.len() - i,
    {
        let e = &entries[i];
        let v = if is_sensitive_key(e.key.as_str()) {
            JsonValue::String(config.mask.clone())
        } else {
            redact_json(&e.value, config)
        };
        let c = JsonEntry { key: e.key.clone(), value: v };
        let ghost before = out@;
        out.push(c);
        proof {
            assert(out@.drop_last() == before);
            assert(entries@.take(i + 1).drop_last() == entries@.take(i as int));
            assert(entries@.take(i + 1).last() == entries@[i as int]);
            let em = entries_model(entries@.take(i + 1));
            assert(em == entries_model(entries@.take(i as int)).push((e.key@, model(e.value))));
            assert(em.drop_last() == entries_model(entries@.take(i as int)));
            assert(em.last() == (e.key@, model(e.value)));
        }
        i = i + 1;
    }
    assert(entries@.take(entries.len() as int) == entries@);
    out
}

} // verus!
