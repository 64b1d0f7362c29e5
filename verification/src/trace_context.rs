//! Trace context of the current tracing span, for propagation into audit
//! events: span id as 16 hex digits, trace id as the span id padded with
//! zeros to 32 hex digits.

use vstd::prelude::*;
use crate::text::{hex_of_bytes, push_char};
use crate::webhook_hmac::hex_encode;

verus! {

/// The 8 bytes of a `u64`, most significant first.
pub open spec fn u64_be_bytes(x: u64) -> Seq<u8> {
    Seq::new(8, |k: int| ((x >> (((7 - k) * 8) as u64)) & 0xffu64) as u8)
}

/// `{:016x}`: 16 lowercase hex digits, zero-padded.
pub open spec fn hex16_text(x: u64) -> Seq<char> {
    hex_of_bytes(u64_be_bytes(x))
}

/// The trace id derived from a span id: its 16 hex digits followed by 16
/// zeros.
pub open spec fn trace_id_text(span: u64) -> Seq<char> {
    hex16_text(span) + Seq::new(16, |k: int| '0')
}

fn hex16(x: u64) -> (s: String)
    ensures
        s@ == hex16_text(x),
{
    let mut bytes: Vec<u8> = Vec::new();
    let mut k: u64 = 0;
    while k < 8
        invariant
            k <= 8,
            bytes@ == u64_be_bytes(x).take(k as int),
        decreases 8 - k,
    {
        let b = ((x >> ((7 - k) * 8)) & 0xff) as u8;
        bytes.push(b);
        assert(bytes@ =~= u64_be_bytes(x).take(k + 1));
        k = k + 1;
    }
    assert(bytes@ =~= u64_be_bytes(x));
    hex_encode(bytes.as_slice())
}

/// The (trace_id, span_id) pair of a span id, both absent without a span.
pub fn trace_context_from_span_id(span_id: Option<u64>) -> (r: (Option<String>, Option<String>))
    ensures
        match span_id {
            None => r.0 is None && r.1 is None,
            Some(id) => (r.0 matches Some(t) && t@ == trace_id_text(id)) && (r.1 matches Some(s) && s@
                == hex16_text(id)),
        },
{
    match span_id {
        None => (None, None),
        Some(id) => {
            let span = hex16(id);
            let mut trace = span.clone();
            let mut k: usize = 0;
            while k < 16
                invariant
                    k <= 16,
                    trace@ == hex16_text(id) + Seq::new(k as nat, |q: int| '0'),
                decreases 16 - k,
            {
                push_char(&mut trace, '0');
                assert(trace@ =~= hex16_text(id) + Seq::new((k + 1) as nat, |q: int| '0'));
                k = k + 1;
            }
            (Some(trace), Some(span))
        },
    }
}

/// `tracing::Span::current().id()`, as its `u64` value. The span in force
/// depends on the caller's context: nothing is claimed of it.
#[verifier::external_body]
fn current_span_id() -> Option<u64> {
    tracing::Span::current().id().map(|id| id.into_u64())
}

/// Extracts (trace_id, span_id) from the current tracing span, both absent
/// when no span is active.
pub fn current_trace_context() -> (r: (Option<String>, Option<String>))
    ensures
        (r.0 is None) == (r.1 is None),
        r.1 matches Some(s) ==> exists|id: u64|
            #![trigger hex16_text(id)]
            s@ == hex16_text(id) && (r.0 matches Some(t) && t@ == trace_id_text(id)),
{
    trace_context_from_span_id(current_span_id())
}

} // verus!
