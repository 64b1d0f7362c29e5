//! Webhook delivery building blocks: the payload posted to subscription URLs,
//! the delivery headers, the outcome of a send, and the sanitising of
//! failure reasons.

use vstd::prelude::*;
use crate::clock::current_time_nanos;
use crate::ids::{uuid_string, uuid_text};
use crate::text::{chars_of, push_char};

verus! {

/// Event type of every webhook payload.
pub open spec fn intent_changed_text() -> Seq<char> {
    "intent_changed"@
}

/// Webhook payload posted to subscription URLs (the JSON shape has
/// event_type, intent_id, tenant_id, version, version_hash,
/// previous_version, timestamp, delivery_id, attempt_number,
/// subscription_id). Identifiers are UUID values; `timestamp` is in
/// nanoseconds since the Unix epoch.
#[derive(Debug)]
pub struct WebhookPayload {
    pub event_type: String,
    pub intent_id: u128,
    pub tenant_id: u128,
    pub version: i32,
    pub version_hash: Option<String>,
    pub previous_version: Option<i32>,
    pub timestamp: i64,
    pub delivery_id: u128,
    pub attempt_number: i32,
    pub subscription_id: u128,
}

/// Input parameters for building a webhook payload.
#[derive(Debug)]
pub struct WebhookPayloadInput {
    pub intent_id: u128,
    pub tenant_id: u128,
    pub version: i32,
    pub version_hash: Option<String>,
    pub previous_version: Option<i32>,
    pub delivery_id: u128,
    pub attempt_number: i32,
    pub subscription_id: u128,
}

/// `p` is the intent-change payload of `input`, stamped `now`.
pub open spec fn is_payload_for(p: WebhookPayload, input: WebhookPayloadInput, now: i64) -> bool {
    &&& p.event_type@ == intent_changed_text()
    &&& p.intent_id == input.intent_id
    &&& p.tenant_id == input.tenant_id
    &&& p.version == input.version
    &&& p.version_hash == input.version_hash
    &&& p.previous_version == input.previous_version
    &&& p.timestamp == now
    &&& p.delivery_id == input.delivery_id
    &&& p.attempt_number == input.attempt_number
    &&& p.subscription_id == input.subscription_id
}

/// Builds the webhook payload of an intent change event, stamped `now`.
pub fn build_webhook_payload_at(input: WebhookPayloadInput, now: i64) -> (p: WebhookPayload)
    ensures
        is_payload_for(p, input, now),
{
    WebhookPayload {
        event_type: String::from_str("intent_changed"),
        intent_id: input.intent_id,
        tenant_id: input.tenant_id,
        version: input.version,
        version_hash: input.version_hash,
        previous_version: input.previous_version,
        timestamp: now,
        delivery_id: input.delivery_id,
        attempt_number: input.attempt_number,
        subscription_id: input.subscription_id,
    }
}

/// Builds the webhook payload of an intent change event, stamped now.
pub fn build_webhook_payload(input: WebhookPayloadInput) -> (p: WebhookPayload)
    ensures
        is_payload_for(p, input, p.timestamp),
{
    let now = current_time_nanos();
    build_webhook_payload_at(input, now)
}

/// HTTP header values of a webhook delivery.
#[derive(Debug)]
pub struct WebhookHeaders {
    pub content_type: String,
    pub idempotency_key: String,
    /// `X-Webhook-Signature`, present only when the delivery is signed.
    pub signature: Option<String>,
}

impl WebhookHeaders {
    /// Headers of a delivery: JSON content, the delivery id as idempotency
    /// key, and no signature.
    pub fn new(delivery_id: u128) -> (h: Self)
        ensures
            h.content_type@ == "application/json"@,
            h.idempotency_key@ == uuid_text(delivery_id),
            h.signature is None,
    {
        WebhookHeaders {
            content_type: String::from_str("application/json"),
            idempotency_key: uuid_string(delivery_id),
            signature: None,
        }
    }

    /// The same headers, signed with `signature`.
    pub fn with_signature(self, signature: String) -> (h: Self)
        ensures
            h == (WebhookHeaders { signature: Some(signature), ..self }),
    {
        WebhookHeaders { signature: Some(signature), ..self }
    }

    /// Whether the signature header is present.
    pub fn has_signature_header(&self) -> (b: bool)
        ensures
            b == self.signature is Some,
    {
        self.signature.is_some()
    }
}

/// Outcome of one HTTP delivery attempt that reached the receiver.
#[derive(Debug)]
pub enum WebhookDeliveryResult {
    /// The receiver accepted the delivery.
    Success,
    /// The receiver refused it for good.
    NonRetryableFailure { reason: String },
    /// The receiver failed in a way worth retrying.
    RetryableFailure { reason: String },
    /// The receiver asked to slow down, optionally saying after how many
    /// seconds to retry.
    RateLimited { retry_after: Option<u64> },
}

/// A delivery attempt that did not reach the receiver.
#[derive(Debug)]
pub enum WebhookSendError {
    Network(String),
}

// =============================================================================
// Failure reason sanitising
// =============================================================================

/// Unicode `White_Space` characters (what `char::is_whitespace` tests).
pub open spec fn is_white_space(c: char) -> bool {
    ||| ('\u{9}' <= c && c <= '\u{d}')
    ||| c == ' '
    ||| c == '\u{85}'
    ||| c == '\u{a0}'
    ||| c == '\u{1680}'
    ||| ('\u{2000}' <= c && c <= '\u{200a}')
    ||| c == '\u{2028}'
    ||| c == '\u{2029}'
    ||| c == '\u{202f}'
    ||| c == '\u{205f}'
    ||| c == '\u{3000}'
}

/// A character that ends a URL: white space or a quote.
pub open spec fn ends_url(c: char) -> bool {
    is_white_space(c) || c == '\'' || c == '"'
}

/// `http://`
pub open spec fn http_prefix() -> Seq<char> {
    seq!['h', 't', 't', 'p', ':', '/', '/']
}

/// `https://`
pub open spec fn https_prefix() -> Seq<char> {
    seq!['h', 't', 't', 'p', 's', ':', '/', '/']
}

/// A URL starts at position `i` of `s`.
pub open spec fn url_starts_at(s: Seq<char>, i: int) -> bool {
    crate::text::occurs_at(s, http_prefix(), i) || crate::text::occurs_at(s, https_prefix(), i)
}

/// What replaces a URL.
pub open spec fn redaction_text() -> Seq<char> {
    seq!['[', 'U', 'R', 'L', '_', 'R', 'E', 'D', 'A', 'C', 'T', 'E', 'D', ']']
}

/// The sanitised rest of `s` from position `i`: every URL (from `http://`
/// or `https://` up to, not including, the next white space or quote) is
/// replaced by `[URL_REDACTED]`; `in_url` says that position `i` is inside
/// a URL already replaced.
pub open spec fn redact_from(s: Seq<char>, i: int, in_url: bool) -> Seq<char>
    decreases s.len() - i,
{
    if i < 0 || i >= s.len() {
        Seq::empty()
    } else if in_url && !ends_url(s[i]) {
        redact_from(s, i + 1, true)
    } else if url_starts_at(s, i) {
        redaction_text() + redact_from(s, i + 1, true)
    } else {
        seq![s[i]] + redact_from(s, i + 1, false)
    }
}

/// The sanitised form of a failure reason.
pub open spec fn sanitized_text(s: Seq<char>) -> Seq<char> {
    redact_from(s, 0, false)
}

fn is_white_space_char(c: char) -> (b: bool)
    ensures
        b == is_white_space(c),
{
    ('\u{9}' <= c && c <= '\u{d}') || c == ' ' || c == '\u{85}' || c == '\u{a0}' || c == '\u{1680}' || (
    '\u{2000}' <= c && c <= '\u{200a}') || c == '\u{2028}' || c == '\u{2029}' || c == '\u{202f}' || c
        == '\u{205f}' || c == '\u{3000}'
}

fn url_starts_at_exec(v: &Vec<char>, i: usize) -> (b: bool)
    requires
        i < v@.len(),
    ensures
        b == url_starts_at(v@, i as int),
{
    let n = v.len();
    let http = n - i >= 7 && v[i] == 'h' && v[i + 1] == 't' && v[i + 2] == 't' && v[i + 3] == 'p'
        && v[i + 4] == ':' && v[i + 5] == '/' && v[i + 6] == '/';
    let https = n - i >= 8 && v[i] == 'h' && v[i + 1] == 't' && v[i + 2] == 't' && v[i + 3] == 'p'
        && v[i + 4] == 's' && v[i + 5] == ':' && v[i + 6] == '/' && v[i + 7] == '/';
    proof {
        if i + 7 <= n {
            let sub = v@.subrange(i as int, i + 7);
            if sub == http_prefix() {
                assert(sub[0] == 'h' && sub[1] == 't' && sub[2] == 't' && sub[3] == 'p');
                assert(sub[4] == ':' && sub[5] == '/' && sub[6] == '/');
            }
            if http {
                assert(sub =~= http_prefix());
            }
        }
        if i + 8 <= n {
            let sub = v@.subrange(i as int, i + 8);
            if sub == https_prefix() {
                assert(sub[0] == 'h' && sub[1] == 't' && sub[2] == 't' && sub[3] == 'p');
                assert(sub[4] == 's' && sub[5] == ':' && sub[6] == '/' && sub[7] == '/');
            }
            if https {
                assert(sub =~= https_prefix());
            }
        }
    }
    http || https
}

/// Sanitises a failure reason so that it leaks no URL: every `http://` or
/// `https://` URL, up to the next white space or quote, becomes
/// `[URL_REDACTED]`.
pub fn sanitize_failure_reason(reason: &str) -> (r: String)
    ensures
        r@ == sanitized_text(reason@),
{
    let v = chars_of(reason);
    let n = v.len();
    let mut out = String::new();
    let mut in_url = false;
    let mut i: usize = 0;
    while i < n
        invariant
            v@ == reason@,
            n == v@.len(),
            i <= n,
            out@ + redact_from(v@, i as int, in_url) == sanitized_text(v@),
        decreases n - i,
    {
        let c = v[i];
        let ends = is_white_space_char(c) || c == '\'' || c == '"';
        if in_url && !ends {
            i = i + 1;
        } else if url_starts_at_exec(&v, i) {
            let ghost before = out@;
            push_char(&mut out, '[');
            out.append("URL_REDACTED]");
            proof {
                reveal_strlit("URL_REDACTED]");
                assert(out@ =~= before + redaction_text());
                assert(before + (redaction_text() + redact_from(v@, i + 1, true)) =~= out@ + redact_from(v@, i + 1, true));
            }
            in_url = true;
            i = i + 1;
        } else {
            let ghost before = out@;
            push_char(&mut out, c);
            proof {
                assert(before + (seq![c] + redact_from(v@, i + 1, false)) =~= out@ + redact_from(v@, i + 1, false));
            }
            in_url = false;
            i = i + 1;
        }
    }
    assert(out@ =~= out@ + redact_from(v@, n as int, in_url));
    out
}

/// No URL scheme occurs in `t`.
pub open spec fn has_no_scheme(t: Seq<char>) -> bool {
    forall|p: int| !crate::text::occurs_at(t, http_prefix(), p) && !crate::text::occurs_at(t, https_prefix(), p)
}

/// The characters of `t` in `[0, k)` include no `[`.
spec fn no_open_bracket(t: Seq<char>, k: int) -> bool {
    forall|q: int| 0 <= q < k ==> t[q] != '['
}

/// Outside a URL, the sanitised rest begins with the input's own
/// characters up to its first `[`.
proof fn lemma_raw_prefix(s: Seq<char>, i: int, k: int)
    requires
        0 <= i <= s.len(),
        0 <= k <= redact_from(s, i, false).len(),
        no_open_bracket(redact_from(s, i, false), k),
    ensures
        i + k <= s.len(),
        redact_from(s, i, false).subrange(0, k) == s.subrange(i, i + k),
    decreases s.len() - i,
{
    let o = redact_from(s, i, false);
    if k == 0 {
        assert(o.subrange(0, 0) =~= s.subrange(i, i));
    } else if i >= s.len() {
    } else if url_starts_at(s, i) {
        assert(o[0] == '[');
    } else {
        let r = redact_from(s, i + 1, false);
        assert(o == seq![s[i]] + r);
        assert forall|q: int| 0 <= q < k - 1 implies r[q] != '[' by {
            assert(o[q + 1] == r[q]);
        }
        lemma_raw_prefix(s, i + 1, k - 1);
        assert(o.subrange(0, k) =~= seq![s[i]] + r.subrange(0, k - 1));
        assert(s.subrange(i, i + k) =~= seq![s[i]] + s.subrange(i + 1, i + k));
    }
}

proof fn lemma_scheme_facts()
    ensures
        http_prefix().len() == 7,
        https_prefix().len() == 8,
        forall|q: int| 0 <= q < 7 ==> http_prefix()[q] != '[' && http_prefix()[q] != ']',
        forall|q: int| 0 <= q < 8 ==> https_prefix()[q] != '[' && https_prefix()[q] != ']',
        http_prefix()[0] == 'h',
        https_prefix()[0] == 'h',
        forall|q: int| 0 <= q < 14 ==> redaction_text()[q] != 'h',
{
}

/// The sanitised rest of `s` from `i` holds no `http://` or `https://`.
proof fn lemma_redact_has_no_scheme(s: Seq<char>, i: int, in_url: bool)
    requires
        0 <= i,
    ensures
        has_no_scheme(redact_from(s, i, in_url)),
    decreases s.len() - i,
{
    lemma_scheme_facts();
    let o = redact_from(s, i, in_url);
    if i >= s.len() {
        assert forall|p: int| !crate::text::occurs_at(o, http_prefix(), p) && !crate::text::occurs_at(o, https_prefix(), p) by {}
    } else if in_url && !ends_url(s[i]) {
        lemma_redact_has_no_scheme(s, i + 1, true);
    } else if url_starts_at(s, i) {
        let r = redact_from(s, i + 1, true);
        lemma_redact_has_no_scheme(s, i + 1, true);
        assert(o == redaction_text() + r);
        assert forall|p: int| !crate::text::occurs_at(o, http_prefix(), p) && !crate::text::occurs_at(o, https_prefix(), p) by {
            lemma_no_scheme_after_block(o, redaction_text(), r, p);
        }
    } else {
        let r = redact_from(s, i + 1, false);
        lemma_redact_has_no_scheme(s, i + 1, false);
        assert(o == seq![s[i]] + r);
        assert forall|p: int| !crate::text::occurs_at(o, http_prefix(), p) && !crate::text::occurs_at(o, https_prefix(), p) by {
            if p == 0 {
                lemma_no_scheme_at_raw_start(s, i, http_prefix());
                lemma_no_scheme_at_raw_start(s, i, https_prefix());
            } else if p > 0 {
                if crate::text::occurs_at(o, http_prefix(), p) {
                    assert(o.subrange(p, p + 7) =~= r.subrange(p - 1, p + 6));
                    assert(crate::text::occurs_at(r, http_prefix(), p - 1));
                }
                if crate::text::occurs_at(o, https_prefix(), p) {
                    assert(o.subrange(p, p + 8) =~= r.subrange(p - 1, p + 7));
                    assert(crate::text::occurs_at(r, https_prefix(), p - 1));
                }
            }
        }
    }
}

/// A scheme does not start at the first character of a raw step.
proof fn lemma_no_scheme_at_raw_start(s: Seq<char>, i: int, h: Seq<char>)
    requires
        0 <= i < s.len(),
        h == http_prefix() || h == https_prefix(),
        !url_starts_at(s, i),
        !(i >= s.len()),
    ensures
        !crate::text::occurs_at(seq![s[i]] + redact_from(s, i + 1, false), h, 0),
{
    lemma_scheme_facts();
    let r = redact_from(s, i + 1, false);
    let o = seq![s[i]] + r;
    if crate::text::occurs_at(o, h, 0) {
        let n = h.len() as int;
        assert(o.subrange(0, n) == h);
        assert forall|q: int| 0 <= q < n - 1 implies r[q] != '[' by {
            assert(o[q + 1] == h[q + 1]);
            assert(o[q + 1] == r[q]);
        }
        lemma_raw_prefix(s, i + 1, n - 1);
        assert(s.subrange(i, i + n) =~= seq![s[i]] + s.subrange(i + 1, i + n));
        assert(o.subrange(0, n) =~= seq![s[i]] + r.subrange(0, n - 1));
        assert(s.subrange(i, i + n) == h);
        assert(crate::text::occurs_at(s, h, i));
        assert(false);
    }
}

/// No scheme occurs in a block without `h` followed by a text without
/// schemes, when the block ends in `]`.
proof fn lemma_no_scheme_after_block(o: Seq<char>, block: Seq<char>, r: Seq<char>, p: int)
    requires
        block == redaction_text(),
        o == block + r,
        has_no_scheme(r),
    ensures
        !crate::text::occurs_at(o, http_prefix(), p) && !crate::text::occurs_at(o, https_prefix(), p),
{
    lemma_scheme_facts();
    if 0 <= p < 14 {
        if crate::text::occurs_at(o, http_prefix(), p) {
            assert(o.subrange(p, p + 7)[0] == o[p]);
            assert(o[p] == block[p]);
        }
        if crate::text::occurs_at(o, https_prefix(), p) {
            assert(o.subrange(p, p + 8)[0] == o[p]);
            assert(o[p] == block[p]);
        }
    } else if p >= 14 {
        if crate::text::occurs_at(o, http_prefix(), p) {
            assert(o.subrange(p, p + 7) =~= r.subrange(p - 14, p - 7));
            assert(crate::text::occurs_at(r, http_prefix(), p - 14));
        }
        if crate::text::occurs_at(o, https_prefix(), p) {
            assert(o.subrange(p, p + 8) =~= r.subrange(p - 14, p - 6));
            assert(crate::text::occurs_at(r, https_prefix(), p - 14));
        }
    }
}

/// A sanitised failure reason holds no `http://` or `https://`: no URL
/// survives sanitisation.
pub proof fn law_sanitized_has_no_url(reason: Seq<char>)
    ensures
        has_no_scheme(sanitized_text(reason)),
{
    lemma_redact_has_no_scheme(reason, 0, false);
}

proof fn lemma_redact_identity(s: Seq<char>, i: int)
    requires
        0 <= i <= s.len(),
        forall|j: int| i <= j < s.len() ==> !url_starts_at(s, j),
    ensures
        redact_from(s, i, false) == s.subrange(i, s.len() as int),
    decreases s.len() - i,
{
    if i < s.len() {
        lemma_redact_identity(s, i + 1);
        assert(s.subrange(i, s.len() as int) =~= seq![s[i]] + s.subrange(i + 1, s.len() as int));
    } else {
        assert(s.subrange(i, s.len() as int) =~= Seq::<char>::empty());
    }
}

/// A failure reason in which no URL starts is left as it is.
pub proof fn law_sanitize_keeps_url_free_text(reason: Seq<char>)
    requires
        forall|j: int| 0 <= j < reason.len() ==> !url_starts_at(reason, j),
    ensures
        sanitized_text(reason) == reason,
{
    lemma_redact_identity(reason, 0);
    assert(reason.subrange(0, reason.len() as int) =~= reason);
}

/// No URL starts at a position holding anything but `h`.
proof fn lemma_no_start_without_h(s: Seq<char>, i: int)
    requires
        0 <= i < s.len(),
        s[i] != 'h',
    ensures
        !url_starts_at(s, i),
{
    if crate::text::occurs_at(s, http_prefix(), i) {
        assert(s.subrange(i, i + 7)[0] == s[i]);
    }
    if crate::text::occurs_at(s, https_prefix(), i) {
        assert(s.subrange(i, i + 8)[0] == s[i]);
    }
}

/// Sanitising the part of `a + b` after `a` is sanitising `b`.
proof fn lemma_redact_shift(a: Seq<char>, b: Seq<char>, k: int, st: bool)
    requires
        0 <= k <= b.len(),
    ensures
        redact_from(a + b, a.len() + k, st) == redact_from(b, k, st),
    decreases b.len() - k,
{
    let s = a + b;
    let i = a.len() + k;
    if k < b.len() {
        lemma_redact_shift(a, b, k + 1, true);
        lemma_redact_shift(a, b, k + 1, false);
        assert(s[i] == b[k]);
        if i + 7 <= s.len() {
            assert(s.subrange(i, i + 7) =~= b.subrange(k, k + 7));
        }
        if i + 8 <= s.len() {
            assert(s.subrange(i, i + 8) =~= b.subrange(k, k + 8));
        }
        assert(url_starts_at(s, i) == url_starts_at(b, k));
    }
}

/// Where `a` ends in white space or a quote, no URL of `a + b` runs from
/// `a` into `b`: the URL starts before the end of `a` are those of `a`.
proof fn lemma_start_within(a: Seq<char>, b: Seq<char>, k: int)
    requires
        0 <= k < a.len(),
        ends_url(a.last()),
    ensures
        url_starts_at(a + b, k) == url_starts_at(a, k),
{
    let s = a + b;
    let last = a.len() - 1;
    assert(s[last] == a.last());
    if crate::text::occurs_at(s, http_prefix(), k) {
        let sub = s.subrange(k, k + 7);
        if k + 7 > a.len() {
            assert(sub[last - k] == s[last]);
            assert(http_prefix()[last - k] == sub[last - k]);
            assert(false);
        }
        assert(a.subrange(k, k + 7) =~= sub);
    }
    if crate::text::occurs_at(a, http_prefix(), k) {
        assert(a.subrange(k, k + 7) =~= s.subrange(k, k + 7));
    }
    if crate::text::occurs_at(s, https_prefix(), k) {
        let sub = s.subrange(k, k + 8);
        if k + 8 > a.len() {
            assert(sub[last - k] == s[last]);
            assert(https_prefix()[last - k] == sub[last - k]);
            assert(false);
        }
        assert(a.subrange(k, k + 8) =~= sub);
    }
    if crate::text::occurs_at(a, https_prefix(), k) {
        assert(a.subrange(k, k + 8) =~= s.subrange(k, k + 8));
    }
}

/// Where `a` ends in white space or a quote, sanitising `a + b` sanitises
/// `a` and then goes on outside any URL.
proof fn lemma_redact_prefix(a: Seq<char>, b: Seq<char>, k: int, st: bool)
    requires
        0 <= k < a.len(),
        ends_url(a.last()),
    ensures
        redact_from(a + b, k, st) == redact_from(a, k, st) + redact_from(a + b, a.len() as int, false),
    decreases a.len() - k,
{
    let s = a + b;
    assert(s[k] == a[k]);
    lemma_start_within(a, b, k);
    if k == a.len() - 1 {
        assert(a[k] == a.last());
        lemma_no_start_without_h(a, k);
        assert(redact_from(a, k + 1, false) =~= Seq::<char>::empty());
        assert(redact_from(s, k, st) == seq![s[k]] + redact_from(s, k + 1, false));
        assert(redact_from(a, k, st) == seq![a[k]] + redact_from(a, k + 1, false));
        assert(seq![a[k]] + redact_from(s, k + 1, false) =~= (seq![a[k]] + Seq::<char>::empty()) + redact_from(
            s,
            k + 1,
            false,
        ));
    } else {
        lemma_redact_prefix(a, b, k + 1, true);
        lemma_redact_prefix(a, b, k + 1, false);
        let tail = redact_from(s, a.len() as int, false);
        assert(redaction_text() + (redact_from(a, k + 1, true) + tail) =~= (redaction_text() + redact_from(a, k + 1, true)) + tail);
        assert(seq![a[k]] + (redact_from(a, k + 1, false) + tail) =~= (seq![a[k]] + redact_from(a, k + 1, false)) + tail);
    }
}

/// Inside a URL, the characters up to the next white space or quote are
/// dropped.
proof fn lemma_redact_skip(s: Seq<char>, k: int, e: int)
    requires
        0 <= k <= e < s.len(),
        forall|j: int| k <= j < e ==> !ends_url(#[trigger] s[j]),
    ensures
        redact_from(s, k, true) == redact_from(s, e, true),
    decreases e - k,
{
    if k < e {
        lemma_redact_skip(s, k + 1, e);
    }
}

/// A URL ends at the first white space or quote: in a text made of a part
/// that ends outside any URL (empty, or ending in white space or a quote),
/// a URL free of white space and quotes, a quote and a rest, the URL alone
/// is replaced, and the quote and the rest are kept as sanitising them
/// alone gives.
pub proof fn law_url_ends_at_quote(pre: Seq<char>, url: Seq<char>, q: char, rest: Seq<char>)
    requires
        pre.len() == 0 || is_white_space(pre.last()) || pre.last() == '\'' || pre.last() == '"',
        url_starts_at(url, 0),
        forall|j: int| 0 <= j < url.len() ==> !is_white_space(#[trigger] url[j]) && url[j] != '\'' && url[j] != '"',
        q == '\'' || q == '"',
    ensures
        sanitized_text(pre + url + seq![q] + rest) == sanitized_text(pre) + redaction_text() + seq![q]
            + sanitized_text(rest),
{
    let b = url + seq![q] + rest;
    let s = pre + url + seq![q] + rest;
    assert(s =~= pre + b);
    let n = url.len();
    assert(n >= 7) by {
        if crate::text::occurs_at(url, http_prefix(), 0) {
        } else {
            assert(crate::text::occurs_at(url, https_prefix(), 0));
        }
    }
    // The URL starts the part after `pre`.
    assert(url_starts_at(b, 0)) by {
        if crate::text::occurs_at(url, http_prefix(), 0) {
            assert(b.subrange(0, 7) =~= url.subrange(0, 7));
        } else {
            assert(b.subrange(0, 8) =~= url.subrange(0, 8));
        }
    }
    assert forall|j: int| 1 <= j < n implies !ends_url(#[trigger] b[j]) by {
        assert(b[j] == url[j]);
    }
    lemma_redact_skip(b, 1, n as int);
    assert(b[n as int] == q);
    lemma_no_start_without_h(b, n as int);
    assert(b =~= (url + seq![q]) + rest);
    lemma_redact_shift(url + seq![q], rest, 0, false);
    assert(redact_from(b, n as int + 1, false) == sanitized_text(rest));
    assert(redact_from(b, n as int, true) == seq![q] + sanitized_text(rest));
    assert(redact_from(b, 0, false) == redaction_text() + (seq![q] + sanitized_text(rest)));
    if pre.len() == 0 {
        assert(s =~= b);
        assert(sanitized_text(pre) =~= Seq::<char>::empty());
    } else {
        lemma_redact_prefix(pre, b, 0, false);
        lemma_redact_shift(pre, b, 0, false);
    }
    assert(sanitized_text(pre) + redaction_text() + seq![q] + sanitized_text(rest) =~= sanitized_text(pre) + (
    redaction_text() + (seq![q] + sanitized_text(rest))));
}

} // verus!
