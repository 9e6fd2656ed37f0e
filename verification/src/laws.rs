//! Properties that hold across the library's operations.

use vstd::prelude::*;
use crate::adapter::{AdapterConfig, IdsModel, UnknownEventPolicy, failure_class_of, BotronFailureClass};
use crate::api_error::{ApiError, RetryClass as ErrorRetryClass, retry_class_of};
use crate::attachment::{
    KnownAttachmentType, LinkModel, avoids_keys, decode_file_payload, file_payload_keys,
    known_type_name, lemma_link_fields_read, link_json, link_keys, non_empty, other_entries,
    outbound_ok, text_field,
};
use crate::endpoint::trim_leading_slashes;
use crate::inbound::{field_text, inbound_outcome, InboundOutcome};
use crate::json::{JsonModel, key_index, lookup, model};
use crate::message::{MessagePayloadKind, classify_payload};
use crate::new_message_body::{BodyCheck, BodyModel, MAX_TEXT_LENGTH, body_check, first_invalid};
use crate::redaction::{
    lemma_find_marker, lemma_scan_all_marker_prefix, lemma_scan_all_no_marker, lower, marker_end, plain_value, redact_entries, redacted_text,
    sensitive_key, single_marker_end, text_markers, truncated,
};
use crate::credentials::BotCredentials;
use crate::request_context::{flatten_char, sanitized, tags_to_map};
use crate::retry_policy::{
    BackoffStrategy, Jitter, RetryClass, RetryPolicy, exponential_delay, lemma_power_monotone,
    power, saturating_pow_u32,
};
use crate::duration::{MAX_DURATION, NANOS_PER_MILLI, as_millis, saturating_mul};
use crate::retry_executor::{RetryExecutor, classify, jittered, run_calls};
use crate::adapter::inbound_key_text;
use crate::inline_keyboard::{ButtonModel, InlineKeyboardError, with_button};
use crate::text::{blank, decimal, digit_char};
use crate::update_envelope::{KnownUpdateType, UpdateEnvelope, UpdateType, update_type_name};

verus! {

/// An exponential backoff never waits longer than its cap.
pub proof fn law_exponential_delay_capped(initial: u128, multiplier: u32, max: u128, retry_number: u32)
    ensures
        exponential_delay(initial, multiplier, max, retry_number) <= max,
{
}

/// With a multiplier of at least one, an exponential backoff never waits
/// less for a later retry than for an earlier one.
pub proof fn law_exponential_delay_monotone(initial: u128, multiplier: u32, max: u128, n1: u32, n2: u32)
    requires
        multiplier >= 1,
        n1 <= n2,
    ensures
        exponential_delay(initial, multiplier, max, n1) <= exponential_delay(initial, multiplier, max, n2),
{
    let r1: u32 = if n1 < 1 { 1 } else { n1 };
    let r2: u32 = if n2 < 1 { 1 } else { n2 };
    assert(r1 <= r2);
    lemma_power_monotone(multiplier as nat, (r1 - 1) as nat, (r2 - 1) as nat);
    let g1 = saturating_pow_u32(multiplier, (r1 - 1) as u32);
    let g2 = saturating_pow_u32(multiplier, (r2 - 1) as u32);
    assert(g1 <= g2);
    assert(initial * g1 <= initial * g2) by (nonlinear_arith)
        requires
            g1 <= g2,
    ;
    assert(saturating_mul(initial, g1) <= saturating_mul(initial, g2));
}

/// Jitter only ever adds: for a delay that a `Duration` can hold, the
/// jittered delay lies between the base delay and the base delay plus the
/// largest jitter (capped at the longest duration).
pub proof fn law_jitter_bounded(base_delay: u128, jitter: Jitter, attempt: u32)
    requires
        base_delay <= MAX_DURATION,
    ensures
        base_delay <= jittered(base_delay, jitter, attempt),
        jitter matches Jitter::Full { max_jitter } ==> jittered(base_delay, jitter, attempt)
            <= base_delay + max_jitter,
        jitter is Disabled ==> jittered(base_delay, jitter, attempt) == base_delay,
{
    match jitter {
        Jitter::Full { max_jitter } => {
            let m = as_millis(max_jitter);
            if m > 0 {
                let j = (attempt * 31 + 17) % (m + 1);
                assert(0 <= j <= m);
                assert(m * NANOS_PER_MILLI <= max_jitter);
                assert(j * NANOS_PER_MILLI <= m * NANOS_PER_MILLI) by (nonlinear_arith)
                    requires
                        0 <= j <= m,
                ;
            }
        },
        Jitter::Disabled => {},
    }
}

/// A policy allows a retry only while attempts remain: after the attempt
/// that reaches the limit, no class is retried.
pub proof fn law_retry_budget(policy: RetryPolicy, class: RetryClass, attempts_made: u32)
    ensures
        policy.retry_allowed(class, attempts_made) ==> attempts_made + 1 <= policy.max_attempts,
        attempts_made >= policy.max_attempts ==> !policy.retry_allowed(class, attempts_made),
        !policy.retry_classes@.contains(class) ==> !policy.retry_allowed(class, attempts_made),
{
}

/// Failure classes agree with retry classes for HTTP statuses other than
/// `401`: a rate-limited status is reported as rate limiting, a status worth
/// backing off as provider unavailability, any other as a contract error.
pub proof fn law_failure_class_follows_retry_class(error: ApiError)
    requires
        error matches ApiError::HttpStatus { status, .. } && status != 401,
    ensures
        retry_class_of(error) == ErrorRetryClass::RateLimited ==> failure_class_of(error)
            == BotronFailureClass::ChannelRateLimited,
        retry_class_of(error) == ErrorRetryClass::Backoff ==> failure_class_of(error)
            == BotronFailureClass::ChannelProviderUnavailable,
        retry_class_of(error) == ErrorRetryClass::NotRetryable ==> failure_class_of(error)
            == BotronFailureClass::ChannelContractError,
{
}

/// The payload that a media token attachment carries.
pub open spec fn token_payload(token: Seq<char>) -> JsonModel {
    JsonModel::Object(seq![("token"@, JsonModel::Text(token))])
}

/// A media attachment made from a token that is not blank can be sent.
pub proof fn law_media_token_validates(kind: KnownAttachmentType, token: Seq<char>)
    requires
        kind != KnownAttachmentType::Link,
        !blank(token),
    ensures
        outbound_ok(known_type_name(kind), token_payload(token)),
{
    reveal_strlit("token");
    reveal_strlit("url");
    reveal_strlit("file_name");
    reveal_strlit("mime_type");
    reveal_strlit("size");
    reveal_strlit("width");
    reveal_strlit("height");
    reveal_strlit("duration_ms");
    reveal_strlit("image");
    reveal_strlit("video");
    reveal_strlit("audio");
    reveal_strlit("file");
    reveal_strlit("link");
    let entries = seq![("token"@, JsonModel::Text(token))];
    assert(key_index(entries, "token"@, 0) == Some(0int));
    assert(entries.len() == 1 && entries[0].0 == "token"@ && "token"@[0] == 't');
    assert("url"@[0] != 't' && "file_name"@[0] != 't' && "mime_type"@[0] != 't');
    assert("size"@[0] != 't' && "width"@[0] != 't' && "height"@[0] != 't');
    assert("duration_ms"@[0] != 't');
    assert(key_index(entries, "url"@, 1) is None);
    assert(key_index(entries, "url"@, 0) is None);
    assert(key_index(entries, "file_name"@, 1) is None);
    assert(key_index(entries, "file_name"@, 0) is None);
    assert(key_index(entries, "mime_type"@, 1) is None);
    assert(key_index(entries, "mime_type"@, 0) is None);
    assert(key_index(entries, "size"@, 1) is None);
    assert(key_index(entries, "size"@, 0) is None);
    assert(key_index(entries, "width"@, 1) is None);
    assert(key_index(entries, "width"@, 0) is None);
    assert(key_index(entries, "height"@, 1) is None);
    assert(key_index(entries, "height"@, 0) is None);
    assert(key_index(entries, "duration_ms"@, 1) is None);
    assert(key_index(entries, "duration_ms"@, 0) is None);
    assert(file_payload_keys()[0] == "token"@);
    assert(entries.drop_last() =~= Seq::<(Seq<char>, JsonModel)>::empty());
    assert(decode_file_payload(token_payload(token)) is Some);
    assert(known_type_name(kind)[0] != 'l');
}

/// Link metadata with a URL that is not blank, and extra entries that use
/// none of the field names, can be sent as a link attachment.
pub proof fn law_link_validates(l: LinkModel)
    requires
        avoids_keys(l.extra, link_keys()),
        non_empty(l.url) is Some,
    ensures
        outbound_ok("link"@, link_json(l)),
{
    lemma_link_fields_read(l);
    reveal_strlit("link");
    reveal_strlit("image");
    reveal_strlit("video");
    reveal_strlit("audio");
    reveal_strlit("file");
    assert("link"@[0] == 'l' && "image"@[0] == 'i' && "video"@[0] == 'v' && "audio"@[0] == 'a'
        && "file"@[0] == 'f');
}

/// Every mapped event records the type of the update it came from.
pub proof fn law_event_records_update_type(update: UpdateEnvelope, ids: IdsModel, config: AdapterConfig)
    ensures
        inbound_outcome(update, ids, config) matches InboundOutcome::Event(e) ==> e.ids.update_type
            == Some(update_type_name(update.update_type)),
{
}

/// Updates with an object payload always map to an event when unknown
/// updates are emitted; mapping fails only for payloads that are not
/// objects, or for unknown updates under the fail-fast policy.
pub proof fn law_inbound_mapping_total(update: UpdateEnvelope, ids: IdsModel, config: AdapterConfig)
    ensures
        crate::inbound::payload_entries(model(update.payload)) is Some
            && config.unknown_event_policy == UnknownEventPolicy::EmitAsUnknown ==> inbound_outcome(
            update,
            ids,
            config,
        ) is Event,
        inbound_outcome(update, ids, config) is Failed ==> crate::inbound::payload_entries(
            model(update.payload),
        ) is None || config.unknown_event_policy == UnknownEventPolicy::FailFast,
{
}

/// A sanitized value holds no line breaks or tabs and no more than
/// `max_len` characters.
pub proof fn law_sanitized_is_clean(s: Seq<char>, max_len: nat)
    ensures
        sanitized(s, max_len).len() <= max_len,
        forall|i: int| 0 <= i < sanitized(s, max_len).len() ==> {
            let c = #[trigger] sanitized(s, max_len)[i];
            c != '\n' && c != '\r' && c != '\t'
        },
{
    let flat = s.map_values(|c: char| flatten_char(c));
    assert forall|i: int| 0 <= i < sanitized(s, max_len).len() implies {
        let c = #[trigger] sanitized(s, max_len)[i];
        c != '\n' && c != '\r' && c != '\t'
    } by {
        assert(sanitized(s, max_len)[i] == flat[i]);
    }
}

/// Redaction keeps the keys of an object in order, and every value under a
/// sensitive key becomes the mask.
pub proof fn law_redaction_keeps_keys(entries: Seq<(Seq<char>, JsonModel)>, mask: Seq<char>, max_len: nat)
    ensures
        redact_entries(entries, mask, max_len).len() == entries.len(),
        forall|i: int| 0 <= i < entries.len() ==> #[trigger] redact_entries(entries, mask, max_len)[i].0
            == entries[i].0,
        forall|i: int|
            0 <= i < entries.len() && sensitive_key(entries[i].0) ==> #[trigger] redact_entries(
                entries,
                mask,
                max_len,
            )[i].1 == JsonModel::Text(mask),
    decreases entries.len(),
{
    if entries.len() > 0 {
        law_redaction_keeps_keys(entries.drop_last(), mask, max_len);
        assert forall|i: int| 0 <= i < entries.len() - 1 implies entries.drop_last()[i] == entries[i] by {}
    }
}

/// A body that passes validation has something to send: text that is not
/// blank and within the length limit, an attachment, or a link; and every
/// attachment it carries can be sent.
pub proof fn law_valid_body_has_content(b: BodyModel)
    requires
        body_check(b) is Valid,
    ensures
        (b.text matches Some(t) && !blank(t) && t.len() <= MAX_TEXT_LENGTH) || b.attachments.len() > 0
            || b.link is Some,
        forall|i: int| 0 <= i < b.attachments.len() ==> outbound_ok(
            crate::attachment::attachment_type_name(#[trigger] b.attachments[i].0),
            b.attachments[i].1,
        ),
{
    assert forall|i: int| 0 <= i < b.attachments.len() implies outbound_ok(
        crate::attachment::attachment_type_name(#[trigger] b.attachments[i].0),
        b.attachments[i].1,
    ) by {
        lemma_first_invalid_none(b.attachments, 0, i);
    }
}

/// With no invalid attachment from `from` on, each later attachment can be sent.
proof fn lemma_first_invalid_none(
    atts: Seq<(crate::attachment::AttachmentType, JsonModel)>,
    from: int,
    i: int,
)
    requires
        0 <= from <= i < atts.len(),
        first_invalid(atts, from) is None,
    ensures
        outbound_ok(crate::attachment::attachment_type_name(atts[i].0), atts[i].1),
    decreases i - from,
{
    if from < i {
        lemma_first_invalid_none(atts, from + 1, i);
    }
}

/// Stripping leading slashes twice strips nothing more, and a leading slash
/// does not change the result: `me` and `/me` resolve alike.
pub proof fn law_leading_slashes(path: Seq<char>)
    ensures
        trim_leading_slashes(trim_leading_slashes(path)) == trim_leading_slashes(path),
        trim_leading_slashes(seq!['/'] + path) == trim_leading_slashes(path),
    decreases path.len(),
{
    let p = seq!['/'] + path;
    assert(p.drop_first() =~= path);
    if path.len() > 0 && path[0] == '/' {
        law_leading_slashes(path.drop_first());
        assert(seq!['/'] + path.drop_first() =~= path);
    }
}

/// A body is rich exactly when it has two or more of text, attachments and
/// link; empty when it has none.
pub proof fn law_payload_kind(has_text: bool, has_attachments: bool, has_link: bool)
    ensures
        (classify_payload(has_text, has_attachments, has_link) == MessagePayloadKind::Rich) <==> (
        (if has_text { 1int } else { 0int }) + (if has_attachments { 1int } else { 0int }) + (
        if has_link { 1int } else { 0int })) >= 2,
        (classify_payload(has_text, has_attachments, has_link) == MessagePayloadKind::Empty) <==> (
        !has_text && !has_attachments && !has_link),
{
}

/// The texts shown for credentials reveal neither token nor secret: any two
/// credentials that agree on whether a secret is set show the same texts.
pub proof fn law_credentials_texts_hide_secrets(a: BotCredentials, b: BotCredentials)
    requires
        (a.secret_view() is Some) == (b.secret_view() is Some),
    ensures
        a.display_text() == b.display_text(),
        a.debug_text() == b.debug_text(),
{
}

/// A key-value list read after a write gives back what was written under
/// that key, and leaves every other key as it was.
pub proof fn law_pairs_read_after_write(
    before: Seq<(String, String)>,
    after: Seq<(String, String)>,
    key: Seq<char>,
    value: Seq<char>,
    other: Seq<char>,
)
    requires
        tags_to_map(after) == tags_to_map(before).insert(key, value),
        other != key,
    ensures
        tags_to_map(after).dom().contains(key),
        tags_to_map(after)[key] == value,
        tags_to_map(after).dom().contains(other) == tags_to_map(before).dom().contains(other),
        tags_to_map(before).dom().contains(other) ==> tags_to_map(after)[other] == tags_to_map(
            before,
        )[other],
{
}

/// A retry run calls the operation at most `max(1, max_attempts + 1 - first)`
/// times, with attempt numbers `first`, `first + 1`, ... in turn: every
/// failure before the last call is one the policy retries at its attempt
/// number, and a run that stops before the failures run out stops at the
/// first failure that the policy does not retry, whose error it returns;
/// otherwise it returns the success that follows the failures.
pub proof fn law_retry_run(policy: RetryPolicy, first: u32, failures: Seq<ApiError>)
    ensures
        1 <= run_calls(policy, first, failures) <= failures.len() + 1,
        run_calls(policy, first, failures) <= if first <= policy.max_attempts {
            policy.max_attempts + 1 - first
        } else {
            1
        },
        forall|k: int|
            0 <= k < run_calls(policy, first, failures) - 1 ==> first + k < u32::MAX
                && policy.retry_allowed(classify(#[trigger] failures[k]), (first + k) as u32),
        run_calls(policy, first, failures) <= failures.len() ==> {
            let last = run_calls(policy, first, failures) - 1;
            !policy.retry_allowed(classify(failures[last]), (first + last) as u32)
        },
    decreases failures.len(),
{
    if failures.len() > 0 && policy.retry_allowed(classify(failures[0]), first) {
        let rest = failures.drop_first();
        let next = (first + 1) as u32;
        law_retry_run(policy, next, rest);
        let n = run_calls(policy, first, failures);
        assert(n == 1 + run_calls(policy, next, rest));
        assert forall|k: int| 0 <= k < n - 1 implies first + k < u32::MAX
            && policy.retry_allowed(classify(#[trigger] failures[k]), (first + k) as u32) by {
            if k > 0 {
                assert(failures[k] == rest[k - 1]);
                assert(rest[k - 1] == failures[k]);
                assert(next + (k - 1) == first + k);
            }
        }
        if n <= failures.len() {
            let last = n - 1;
            assert(failures[last] == rest[last - 1]);
            assert(next + (last - 1) == first + last);
        }
    }
}

/// Server errors worth backing off: a status error with status 500, 502,
/// 503 or 504 has retry class `Backoff`, is retried by the executor under
/// the backoff class (unless its code says an attachment is not ready), and
/// is reported to Botron as provider unavailability.
pub proof fn law_server_errors_back_off(status: u16, code: Option<String>, message: Option<String>)
    requires
        status == 500 || status == 502 || status == 503 || status == 504,
    ensures
        retry_class_of(ApiError::HttpStatus { status, code, message }) == ErrorRetryClass::Backoff,
        failure_class_of(ApiError::HttpStatus { status, code, message })
            == BotronFailureClass::ChannelProviderUnavailable,
        !(code matches Some(c) && c@ == "attachment.not.ready"@) ==> classify(
            ApiError::HttpStatus { status, code, message },
        ) == RetryClass::Backoff,
{
}

/// A `429` status is rate limiting, for the retry class, the executor's
/// class (unless its code says an attachment is not ready) and Botron.
pub proof fn law_too_many_requests_is_rate_limited(code: Option<String>, message: Option<String>)
    ensures
        retry_class_of(ApiError::HttpStatus { status: 429, code, message })
            == ErrorRetryClass::RateLimited,
        failure_class_of(ApiError::HttpStatus { status: 429, code, message })
            == BotronFailureClass::ChannelRateLimited,
        !(code matches Some(c) && c@ == "attachment.not.ready"@) ==> classify(
            ApiError::HttpStatus { status: 429, code, message },
        ) == RetryClass::RateLimited,
{
}

/// A button added to a keyboard goes at the end of the last row (a new row
/// when there is none): the row keeps its buttons, in order, and gains the
/// new one last; every other row is unchanged. A row of eight refuses it.
pub proof fn law_button_appended_last(rows: Seq<Seq<ButtonModel>>, b: ButtonModel)
    ensures
        ({
            let last: Seq<ButtonModel> = if rows.len() == 0 {
                Seq::empty()
            } else {
                rows[rows.len() - 1]
            };
            let count: int = if rows.len() == 0 {
                1
            } else {
                rows.len() as int
            };
            &&& last.len() < 8 ==> (with_button(rows, b) matches Ok(next) && next.len() == count
                && next[count - 1].len() == last.len() + 1 && next[count - 1][last.len() as int] == b
                && (forall|i: int| 0 <= i < last.len() ==> #[trigger] next[count - 1][i] == last[i])
                && (forall|r: int| 0 <= r < count - 1 ==> #[trigger] next[r] == rows[r]))
            &&& last.len() >= 8 ==> with_button(rows, b) == Err::<Seq<Seq<ButtonModel>>, _>(
                InlineKeyboardError::TooManyButtonsInRow,
            )
        }),
{
}

/// The inbound idempotency key ends with `:` and the callback identifier
/// when there is one (`:-` when there is none), so identifiers that differ
/// only in their callback identifiers give different keys.
pub proof fn law_inbound_key_names_callback(scope: Seq<char>, ids: IdsModel, other: Seq<char>)
    ensures
        ({
            let key = inbound_key_text(scope, ids);
            &&& ids.callback_id matches Some(c) ==> key.len() > c.len() && key.subrange(
                key.len() - c.len() - 1,
                key.len() as int,
            ) == seq![':'] + c
            &&& ids.callback_id is None ==> key.len() >= 2 && key.subrange(
                key.len() - 2,
                key.len() as int,
            ) == seq![':', '-']
            &&& (ids.callback_id matches Some(c) && c != other) ==> key != inbound_key_text(
                scope,
                IdsModel { callback_id: Some(other), ..ids },
            )
        }),
{
    reveal_strlit(":");
    reveal_strlit("-");
    let key = inbound_key_text(scope, ids);
    let prefix = "max:"@ + scope + ":"@ + crate::adapter::or_placeholder(ids.update_type, "unknown"@)
        + ":"@ + crate::adapter::or_placeholder(ids.chat_id, "-"@) + ":"@
        + crate::adapter::or_placeholder(ids.message_id, "-"@) + ":"@;
    assert(key == prefix + crate::adapter::or_placeholder(ids.callback_id, "-"@));
    if let Some(c) = ids.callback_id {
        assert(key.subrange(key.len() - c.len() - 1, key.len() as int) =~= seq![':'] + c);
        if c != other {
            let key2 = inbound_key_text(scope, IdsModel { callback_id: Some(other), ..ids });
            assert(key2 == prefix + other);
            if key == key2 {
                assert(key.len() == key2.len());
                assert(c =~= key.skip(prefix.len() as int));
                assert(other =~= key2.skip(prefix.len() as int));
            }
        }
    } else {
        assert(key.subrange(key.len() - 2, key.len() as int) =~= seq![':', '-']);
    }
}

/// With no jitter, an exponential backoff schedules the initial delay
/// (capped) after the first failed attempt, and after each later attempt
/// the previous delay times the multiplier, capped, while the product fits;
/// the delays never shrink and never pass the cap.
pub proof fn law_retry_delay_grows(
    e: RetryExecutor,
    class: RetryClass,
    n: u32,
    initial: u128,
    multiplier: u32,
    max: u128,
)
    requires
        e.configured_policy().backoff == (BackoffStrategy::Exponential {
            initial_delay: initial,
            multiplier,
            max_delay: max,
        }),
        e.configured_policy().jitter == Jitter::Disabled,
        class != RetryClass::Immediate,
        multiplier >= 1,
        1 <= n < u32::MAX,
        initial <= MAX_DURATION,
    ensures
        e.retry_delay(1, class) == if initial <= max {
            initial
        } else {
            max
        },
        power(multiplier as nat, n as nat) <= u32::MAX && initial * power(multiplier as nat, n as nat)
            <= MAX_DURATION ==> e.retry_delay((n + 1) as u32, class) == if e.retry_delay(n, class)
            * multiplier <= max {
            e.retry_delay(n, class) * multiplier
        } else {
            max as int
        },
        e.retry_delay(n, class) <= e.retry_delay((n + 1) as u32, class),
        e.retry_delay(n, class) <= max,
{
    let g1 = power(multiplier as nat, (n - 1) as nat);
    let g2 = power(multiplier as nat, n as nat);
    assert(power(multiplier as nat, 0) == 1);
    assert(saturating_pow_u32(multiplier, 0) == 1);
    assert(initial * 1 == initial);
    assert(g2 == g1 * multiplier);
    law_exponential_delay_monotone(initial, multiplier, max, n, (n + 1) as u32);
    if g2 <= u32::MAX && initial * g2 <= MAX_DURATION {
        lemma_power_monotone(multiplier as nat, (n - 1) as nat, n as nat);
        assert(initial * g1 <= initial * g2) by (nonlinear_arith)
            requires
                g1 <= g2,
        ;
        let a = initial * g1;
        assert(saturating_mul(initial, saturating_pow_u32(multiplier, (n - 1) as u32)) == a);
        assert(saturating_mul(initial, saturating_pow_u32(multiplier, n)) == initial * g2);
        assert(initial * g2 == a * multiplier) by (nonlinear_arith)
            requires
                g2 == g1 * multiplier,
                a == initial * g1,
        ;
        if a > max {
            assert(max * multiplier >= max) by (nonlinear_arith)
                requires
                    multiplier >= 1,
            ;
            assert(a * multiplier >= a) by (nonlinear_arith)
                requires
                    multiplier >= 1,
                    a >= 0,
            ;
        }
    }
}

/// A fixed backoff without jitter schedules the same delay after every
/// failed attempt.
pub proof fn law_retry_delay_fixed(e: RetryExecutor, class: RetryClass, n: u32, delay: u128)
    requires
        e.configured_policy().backoff == (BackoffStrategy::Fixed { delay }),
        e.configured_policy().jitter == Jitter::Disabled,
        class != RetryClass::Immediate,
    ensures
        e.retry_delay(n, class) == delay,
{
}

/// Immediate retries wait for nothing.
pub proof fn law_immediate_retry_waits_nothing(e: RetryExecutor, n: u32)
    ensures
        e.retry_delay(n, RetryClass::Immediate) == 0,
{
}

/// Jitter only adds to the backoff: with the same backoff, the delay under
/// full jitter lies between the delay without jitter and that delay plus the
/// largest jitter.
pub proof fn law_retry_jitter_adds(a: RetryExecutor, b: RetryExecutor, class: RetryClass, n: u32, max_jitter: u128)
    requires
        a.configured_policy().backoff == b.configured_policy().backoff,
        a.configured_policy().jitter == Jitter::Disabled,
        b.configured_policy().jitter == (Jitter::Full { max_jitter }),
        a.retry_delay(n, class) <= MAX_DURATION,
    ensures
        a.retry_delay(n, class) <= b.retry_delay(n, class) <= a.retry_delay(n, class) + max_jitter,
{
    if class != RetryClass::Immediate {
        law_jitter_bounded(a.retry_delay(n, class), Jitter::Full { max_jitter }, n);
    }
}

/// The markers after which plain-text redaction hides values.
pub open spec fn secret_markers() -> Seq<Seq<char>> {
    seq!["authorization:"@, "authorization="@, "token="@, "access_token="@, "secret="@, "webhook_secret="@]
}

proof fn lemma_secret_marker_shape(m: Seq<char>)
    requires
        secret_markers().contains(m),
    ensures
        m.len() >= 1,
        marker_end(m[m.len() - 1]),
        forall|k: int| 0 <= k < m.len() - 1 ==> !marker_end(#[trigger] m[k]),
        text_markers().contains(m),
{
    reveal_strlit("authorization:");
    reveal_strlit("authorization=");
    reveal_strlit("token=");
    reveal_strlit("access_token=");
    reveal_strlit("secret=");
    reveal_strlit("webhook_secret=");
    let ms = secret_markers();
    let j = choose|j: int| 0 <= j < ms.len() && ms[j] == m;
    assert(text_markers()[j] == m);
}

/// Plain-text redaction hides the value after each secret marker: a text
/// that is a marker (in any ASCII case) followed by a value without stop
/// characters comes out as the marker followed by the mask, whatever the
/// value, for any mask without stop characters that fits the length limit.
pub proof fn law_redact_text_masks_marker_values(
    marker: Seq<char>,
    p: Seq<char>,
    v: Seq<char>,
    mask: Seq<char>,
    max_len: nat,
)
    requires
        secret_markers().contains(marker),
        lower(p) == marker,
        v.len() >= 1,
        plain_value(v),
        mask.len() >= 1,
        plain_value(mask),
        p.len() + mask.len() <= max_len,
    ensures
        redacted_text(p + v, mask, max_len) == p + mask,
{
    lemma_secret_marker_shape(marker);
    assert(lower(p).len() == p.len());
    assert(single_marker_end(p));
    let ms = text_markers();
    assert forall|i: int| 0 <= i < ms.len() implies (#[trigger] ms[i]).len() >= 1 && marker_end(
        ms[i][ms[i].len() - 1],
    ) by {
        lemma_secret_marker_shape(ms[i]);
    }
    lemma_scan_all_marker_prefix(p, v, ms, mask);
    let j = choose|j: int| 0 <= j < ms.len() && ms[j] == marker;
    assert(lower(p).subrange(p.len() - ms[j].len(), p.len() as int) =~= ms[j]);
}

/// Transport failures while connecting or timing out are worth backing off;
/// every transport failure is reported to Botron as a transport error.
pub proof fn law_transport_failures_back_off(t: crate::api_error::TransportError)
    ensures
        (t.is_connect || t.is_timeout) ==> retry_class_of(ApiError::Transport(t))
            == ErrorRetryClass::Backoff,
        !(t.is_connect || t.is_timeout) ==> retry_class_of(ApiError::Transport(t))
            == ErrorRetryClass::NotRetryable,
        failure_class_of(ApiError::Transport(t)) == BotronFailureClass::ChannelTransportError,
        classify(ApiError::Transport(t)) == RetryClass::Transport,
{
}

/// A text with no `=` or `:` holds no secret marker: redaction leaves it
/// whole when it fits the limit, and otherwise keeps its first `max_len`
/// characters followed by `…`.
pub proof fn law_redact_text_keeps_plain_text(s: Seq<char>, mask: Seq<char>, max_len: nat)
    requires
        forall|i: int| 0 <= i < s.len() ==> !marker_end(#[trigger] s[i]),
    ensures
        s.len() <= max_len ==> redacted_text(s, mask, max_len) == s,
        s.len() > max_len ==> redacted_text(s, mask, max_len) == s.take(max_len as int) + seq!['…'],
{
    reveal_strlit("…");
    let ms = text_markers();
    assert forall|i: int| 0 <= i < ms.len() implies (#[trigger] ms[i]).len() >= 1 && marker_end(
        ms[i][ms[i].len() - 1],
    ) by {
        lemma_secret_marker_shape(ms[i]);
    }
    lemma_scan_all_no_marker(s, ms, mask);
}

/// Only `429`, `500`, `502`, `503` and `504` statuses are worth retrying.
pub proof fn law_other_statuses_not_retried(status: u16, code: Option<String>, message: Option<String>)
    requires
        status != 429 && status != 500 && status != 502 && status != 503 && status != 504,
    ensures
        retry_class_of(ApiError::HttpStatus { status, code, message }) == ErrorRetryClass::NotRetryable,
{
}

proof fn lemma_mask_one(p: Seq<char>, t: Seq<char>, m: Seq<char>)
    requires
        p.len() >= 1,
        marker_end(p[p.len() - 1]),
        forall|i: int| 0 <= i < p.len() - 1 ==> !marker_end(#[trigger] p[i]),
        plain_value(t),
        m.len() >= 1,
        marker_end(m[m.len() - 1]),
    ensures
        crate::api_error::mask_first_value(p + t, m) == if p.len() >= m.len() && p.subrange(
            p.len() - m.len(),
            p.len() as int,
        ) == m {
            p + "***"@
        } else {
            p + t
        },
{
    let s = p + t;
    let q = p.len() - 1;
    assert forall|i: int| 0 <= i < s.len() && i != q implies !marker_end(#[trigger] s[i]) by {
        if i >= p.len() {
            assert(s[i] == t[i - p.len()]);
        }
    }
    lemma_find_marker(s, m, q, 0);
    if p.len() >= m.len() {
        assert(s.subrange(p.len() - m.len(), p.len() as int) =~= p.subrange(
            p.len() - m.len(),
            p.len() as int,
        ));
    }
    if p.len() >= m.len() && p.subrange(p.len() - m.len(), p.len() as int) == m {
        assert forall|j: int| p.len() <= j < s.len() implies !crate::api_error::value_stop(#[trigger] s[j]) by {
            assert(s[j] == t[j - p.len()]);
        }
        lemma_value_end_plain(s, p.len() as int);
        assert(s.take(p.len() as int) + "***"@ + s.skip(s.len() as int) =~= p + "***"@);
    }
}

proof fn lemma_value_end_plain(s: Seq<char>, start: int)
    requires
        0 <= start <= s.len(),
        forall|j: int| start <= j < s.len() ==> !crate::api_error::value_stop(#[trigger] s[j]),
    ensures
        crate::api_error::value_end(s, start) == s.len(),
    decreases s.len() - start,
{
    if start < s.len() {
        lemma_value_end_plain(s, start + 1);
    }
}

proof fn lemma_mask_all(p: Seq<char>, t: Seq<char>, markers: Seq<Seq<char>>)
    requires
        p.len() >= 1,
        marker_end(p[p.len() - 1]),
        forall|i: int| 0 <= i < p.len() - 1 ==> !marker_end(#[trigger] p[i]),
        plain_value(t),
        forall|i: int| 0 <= i < markers.len() ==> (#[trigger] markers[i]).len() >= 1 && marker_end(
            markers[i][markers[i].len() - 1],
        ),
    ensures
        crate::api_error::mask_markers(p + t, markers) == if exists|i: int|
            0 <= i < markers.len() && p.len() >= (#[trigger] markers[i]).len() && p.subrange(
                p.len() - markers[i].len(),
                p.len() as int,
            ) == markers[i] {
            p + "***"@
        } else {
            p + t
        },
    decreases markers.len(),
{
    reveal_strlit("***");
    if markers.len() > 0 {
        let m = markers[0];
        lemma_mask_one(p, t, m);
        let rest = markers.drop_first();
        assert forall|i: int| 0 <= i < rest.len() implies (#[trigger] rest[i]).len() >= 1 && marker_end(
            rest[i][rest[i].len() - 1],
        ) by {
            assert(rest[i] == markers[i + 1]);
        }
        let hit = p.len() >= m.len() && p.subrange(p.len() - m.len(), p.len() as int) == m;
        if hit {
            assert(plain_value("***"@));
            lemma_mask_all(p, "***"@, rest);
        } else {
            lemma_mask_all(p, t, rest);
        }
        let any = exists|i: int|
            0 <= i < markers.len() && p.len() >= (#[trigger] markers[i]).len() && p.subrange(
                p.len() - markers[i].len(),
                p.len() as int,
            ) == markers[i];
        let any_rest = exists|i: int|
            0 <= i < rest.len() && p.len() >= (#[trigger] rest[i]).len() && p.subrange(
                p.len() - rest[i].len(),
                p.len() as int,
            ) == rest[i];
        if any_rest {
            let i = choose|i: int|
                0 <= i < rest.len() && p.len() >= (#[trigger] rest[i]).len() && p.subrange(
                    p.len() - rest[i].len(),
                    p.len() as int,
                ) == rest[i];
            assert(rest[i] == markers[i + 1]);
        }
        if any && !hit {
            let i = choose|i: int|
                0 <= i < markers.len() && p.len() >= (#[trigger] markers[i]).len() && p.subrange(
                    p.len() - markers[i].len(),
                    p.len() as int,
                ) == markers[i];
            assert(i != 0);
            assert(rest[i - 1] == markers[i]);
        }
    }
}

/// The markers after which error texts hide values, matched as written.
pub open spec fn error_text_markers() -> Seq<Seq<char>> {
    seq!["access_token="@, "Authorization:"@, "authorization:"@, "token="@, "secret="@]
}

/// Redacting an error text hides the value after each of its markers: the
/// marker followed by a value without stop characters comes out as the
/// marker followed by `***`, whatever the value.
pub proof fn law_redact_sensitive_masks_marker_values(marker: Seq<char>, v: Seq<char>)
    requires
        error_text_markers().contains(marker),
        plain_value(v),
    ensures
        crate::api_error::redacted(marker + v) == marker + "***"@,
{
    reveal_strlit("access_token=");
    reveal_strlit("Authorization:");
    reveal_strlit("authorization:");
    reveal_strlit("token=");
    reveal_strlit("secret=");
    let ms = crate::api_error::sensitive_markers();
    let em = error_text_markers();
    let j = choose|j: int| 0 <= j < em.len() && em[j] == marker;
    assert(ms[j] == marker);
    assert(marker.len() >= 1 && marker_end(marker[marker.len() - 1]));
    assert(forall|i: int| 0 <= i < marker.len() - 1 ==> !marker_end(#[trigger] marker[i]));
    assert forall|i: int| 0 <= i < ms.len() implies (#[trigger] ms[i]).len() >= 1 && marker_end(
        ms[i][ms[i].len() - 1],
    ) by {}
    lemma_mask_all(marker, v, ms);
    assert(marker.subrange(marker.len() - ms[j].len(), marker.len() as int) =~= ms[j]);
}

/// A key names a secret exactly when, ignoring ASCII case, it contains
/// `token`, `secret`, `authorization` or `password`.
pub proof fn law_sensitive_key_words(key: Seq<char>)
    ensures
        sensitive_key(key) <==> (exists|i: int| crate::text::occurs_at(lower(key), "token"@, i)) || (
        exists|i: int| crate::text::occurs_at(lower(key), "secret"@, i)) || (exists|i: int|
            crate::text::occurs_at(lower(key), "authorization"@, i)) || (exists|i: int|
            crate::text::occurs_at(lower(key), "password"@, i)),
{
    let k = lower(key);
    crate::text::lemma_find_from_bounds(k, "token"@, 0);
    crate::text::lemma_find_from_bounds(k, "secret"@, 0);
    crate::text::lemma_find_from_bounds(k, "authorization"@, 0);
    crate::text::lemma_find_from_bounds(k, "password"@, 0);
}

/// The outbound idempotency key starts with `max:`, the scope and `:`, and
/// ends with `:` and the external identifier, so keys for different
/// identifiers (same scope and action) differ.
pub proof fn law_outbound_key_names_id(scope: Seq<char>, action: Seq<char>, id: Seq<char>, other: Seq<char>)
    ensures
        ({
            let key = crate::adapter::outbound_key_text(scope, action, id);
            &&& key.len() > id.len() && key.subrange(key.len() - id.len() - 1, key.len() as int)
                == seq![':'] + id
            &&& key.subrange(0, (4 + scope.len() + 1) as int) == seq!['m', 'a', 'x', ':'] + scope + seq![':']
            &&& id != other ==> key != crate::adapter::outbound_key_text(scope, action, other)
        }),
{
    reveal_strlit("max:");
    reveal_strlit(":");
    let key = crate::adapter::outbound_key_text(scope, action, id);
    let prefix = "max:"@ + scope + ":"@ + action + ":"@;
    assert(key == prefix + id);
    assert(key.subrange(key.len() - id.len() - 1, key.len() as int) =~= seq![':'] + id);
    assert(key.subrange(0, (4 + scope.len() + 1) as int) =~= seq!['m', 'a', 'x', ':'] + scope + seq![':']);
    if id != other {
        let key2 = crate::adapter::outbound_key_text(scope, action, other);
        assert(key2 == prefix + other);
        if key == key2 {
            assert(id =~= key.skip(prefix.len() as int));
            assert(other =~= key2.skip(prefix.len() as int));
        }
    }
}

/// A path segment is accepted exactly when it is not blank and holds no
/// `/`; a blank one is refused as empty first.
pub proof fn law_path_segments(value: Seq<char>, name: &'static str)
    ensures
        crate::api_paths::segment_check(value, name) is Ok <==> !blank(value) && !value.contains('/'),
        blank(value) ==> crate::api_paths::segment_check(value, name) == Err::<(), _>(
            crate::api_paths::ApiPathError::EmptySegment { segment_name: name },
        ),
        !blank(value) && value.contains('/') ==> crate::api_paths::segment_check(value, name) == Err::<
            (),
            _,
        >(crate::api_paths::ApiPathError::InvalidSegment { segment_name: name }),
{
}

proof fn lemma_decimal_shape(n: nat)
    ensures
        n < 10 ==> decimal(n).len() == 1,
        n >= 10 ==> decimal(n).len() >= 2,
        decimal(n).len() >= 1,
        decimal(n)[0] != '-',
    decreases n,
{
    if n >= 10 {
        lemma_decimal_shape(n / 10);
        assert(decimal(n)[0] == decimal(n / 10)[0]);
    }
}

proof fn lemma_decimal_injective(n: nat, m: nat)
    requires
        decimal(n) == decimal(m),
    ensures
        n == m,
    decreases n,
{
    lemma_decimal_shape(n);
    lemma_decimal_shape(m);
    if n >= 10 && m >= 10 {
        assert(decimal(n).drop_last() == decimal(n / 10));
        assert(decimal(m).drop_last() == decimal(m / 10));
        assert(decimal(n).last() == digit_char(n % 10));
        assert(decimal(m).last() == digit_char(m % 10));
        lemma_decimal_injective(n / 10, m / 10);
    } else if n < 10 && m < 10 {
        assert(decimal(n)[0] == digit_char(n));
        assert(decimal(m)[0] == digit_char(m));
    }
}

/// Chat paths name their chats: different chat identifiers give different
/// `/chats/{chatId}` paths.
pub proof fn law_chat_paths_distinct(a: i64, b: i64)
    requires
        a != b,
    ensures
        crate::api_paths::chat_path(a) != crate::api_paths::chat_path(b),
{
    reveal_strlit("/chats/");
    if crate::api_paths::chat_path(a) == crate::api_paths::chat_path(b) {
        let pa = crate::text::decimal_int(a as int);
        let pb = crate::text::decimal_int(b as int);
        assert(pa =~= crate::api_paths::chat_path(a).skip(7));
        assert(pb =~= crate::api_paths::chat_path(b).skip(7));
        if a < 0 {
            lemma_decimal_shape((-a) as nat);
        }
        if b < 0 {
            lemma_decimal_shape((-b) as nat);
        }
        if a >= 0 {
            lemma_decimal_shape(a as nat);
        }
        if b >= 0 {
            lemma_decimal_shape(b as nat);
        }
        if a < 0 && b < 0 {
            assert(pa.drop_first() =~= decimal((-a) as nat));
            assert(pb.drop_first() =~= decimal((-b) as nat));
            lemma_decimal_injective((-a) as nat, (-b) as nat);
        } else if a >= 0 && b >= 0 {
            lemma_decimal_injective(a as nat, b as nat);
        } else {
            assert(pa[0] != pb[0]);
        }
    }
}

/// A message or callback update with an object payload maps to its event
/// whatever the policy, and the event's identifiers are the payload's own
/// `chat_id`, `user_id` and `message_id` members; a callback also takes the
/// payload's `callback_id`, while a new message keeps the one it was given.
pub proof fn law_message_ids_from_payload(update: UpdateEnvelope, ids: IdsModel, config: AdapterConfig)
    requires
        update.update_type == UpdateType::Known(KnownUpdateType::MessageCreated)
            || update.update_type == UpdateType::Known(KnownUpdateType::MessageCallback),
        crate::inbound::payload_entries(model(update.payload)) is Some,
    ensures
        ({
            let entries = crate::inbound::payload_entries(model(update.payload)).unwrap();
            let callback = update.update_type == UpdateType::Known(KnownUpdateType::MessageCallback);
            inbound_outcome(update, ids, config) matches InboundOutcome::Event(e)
                && e.ids.chat_id == field_text(entries, "chat_id"@)
                && e.ids.user_id == field_text(entries, "user_id"@)
                && e.ids.message_id == field_text(entries, "message_id"@)
                && e.ids.callback_id == (if callback {
                    field_text(entries, "callback_id"@)
                } else {
                    ids.callback_id
                })
                && e.event_name == (if callback {
                    "interaction.callback.received"@
                } else {
                    "interaction.message.received"@
                })
        }),
{
}

/// A backoff strategy that passes validation always waits: a fixed one
/// waits its delay, and an exponential one waits between its initial and
/// its largest delay before every retry (for an initial delay that a
/// `Duration` can hold).
pub proof fn law_valid_backoff_waits(strategy: BackoffStrategy, retry_number: u32)
    requires
        strategy.validation() is Ok,
        strategy matches BackoffStrategy::Exponential { initial_delay, .. } ==> initial_delay
            <= MAX_DURATION,
    ensures
        strategy.delay_spec(retry_number) >= 1,
        strategy matches BackoffStrategy::Exponential { initial_delay, max_delay, .. } ==> initial_delay
            <= strategy.delay_spec(retry_number) <= max_delay,
        strategy matches BackoffStrategy::Fixed { delay } ==> strategy.delay_spec(retry_number) == delay,
{
    if let BackoffStrategy::Exponential { initial_delay, multiplier, max_delay } = strategy {
        law_exponential_delay_monotone(initial_delay, multiplier, max_delay, 0, retry_number);
        assert(power(multiplier as nat, 0) == 1);
        assert(saturating_pow_u32(multiplier, 0) == 1);
        assert(initial_delay * 1u32 == initial_delay) by (nonlinear_arith);
        assert(saturating_mul(initial_delay, 1) == initial_delay);
        assert(exponential_delay(initial_delay, multiplier, max_delay, 0) == initial_delay);
    }
}

} // verus!
