use vstd::prelude::*;
use crate::context::{
    spec_get, spec_extract, trace_field, traceparent_context, traceparent_key, well_formed_traceparent,
    span_field, TraceContext,
};
use crate::hex::{all_hex, hex_text, hex_value, hex_digit_value, digit_char, is_hex_digit, lemma_hex_value_bound, lemma_pow16_32};
use crate::span::{closed_at, spec_trace_id, spec_span_id, started_as, Span, SpanKind};

verus! {

/// A carrier whose `traceparent` header is well formed yields the context
/// whose identifiers are exactly the numbers written in the header's fields.
pub proof fn lemma_extract_decodes_fields(c: Seq<(Seq<u8>, Seq<u8>)>, v: Seq<u8>)
    requires
        spec_get(c, traceparent_key()) == Some(v),
        well_formed_traceparent(v),
    ensures
        spec_extract(c) == Some(traceparent_context(v)),
        spec_extract(c)->0.trace_id as nat == hex_value(trace_field(v)),
        spec_extract(c)->0.span_id as nat == hex_value(span_field(v)),
        spec_extract(c)->0.valid(),
{
    lemma_hex_value_bound(trace_field(v));
    lemma_hex_value_bound(span_field(v));
    lemma_pow16_32();
}

/// The lowercase text of the number that lowercase hex digits write, in as
/// many places as there are digits, is those digits.
pub proof fn lemma_hex_text_of_value(s: Seq<u8>)
    requires
        all_hex(s),
    ensures
        hex_text(hex_value(s), s.len()) == s.map_values(|b: u8| b as char),
    decreases s.len(),
{
    if s.len() > 0 {
        let init = s.drop_last();
        let d = s.last();
        assert(all_hex(init));
        assert(is_hex_digit(s[s.len() - 1]));
        lemma_hex_text_of_value(init);
        let hv = hex_value(init);
        let dv = hex_digit_value(d);
        assert(dv < 16);
        assert((hv * 16 + dv) / 16 == hv && (hv * 16 + dv) % 16 == dv) by (nonlinear_arith)
            requires dv < 16;
        assert(digit_char(dv) == d as char);
        assert(s.map_values(|b: u8| b as char) =~= init.map_values(|b: u8| b as char).push(d as char));
    }
}

/// When a request carries a well-formed header, the trace id that the reply
/// reports is the header's trace-id field, character for character.
pub proof fn lemma_reported_trace_id_is_header_field(v: Seq<u8>)
    requires
        well_formed_traceparent(v),
    ensures
        hex_text(traceparent_context(v).trace_id as nat, 32) == trace_field(v).map_values(|b: u8| b as char),
{
    lemma_hex_value_bound(trace_field(v));
    lemma_pow16_32();
    lemma_hex_text_of_value(trace_field(v));
}

/// Without a parent context, a started span gets a non-zero trace id whatever
/// the random source gave: the fallback counter is never zero.
pub proof fn lemma_no_parent_fresh_trace(c: Seq<(Seq<u8>, Seq<u8>)>, drawn: u128, fallback: u64)
    requires
        spec_extract(c) is None,
        fallback != 0,
    ensures
        spec_trace_id(spec_extract(c), drawn, fallback) != 0,
{
}

/// A span started under a valid parent belongs to the parent's trace and
/// records the parent, hence the parent's span id, as its parent.
pub proof fn lemma_child_joins_parent_trace(
    r: Span,
    name: String,
    kind: SpanKind,
    p: TraceContext,
    now: u64,
    drawn_trace: u128,
    drawn_span: u64,
    fb1: u64,
    fb2: u64,
)
    requires
        p.valid(),
        started_as(r, name, kind, Some(p), now, spec_trace_id(Some(p), drawn_trace, fb1), spec_span_id(drawn_span, fb2)),
    ensures
        r.context.trace_id == p.trace_id,
        r.parent == Some(p),
        r.parent->0.span_id == p.span_id,
{
}

/// Closing is done once: the first close of an open span sets its end time,
/// and any later close leaves the span exactly as the first one left it.
pub proof fn lemma_closed_once(s: Span, t1: u64, t2: u64)
    requires
        s.end_time is None,
    ensures
        closed_at(s, t1).end_time == Some(t1),
        closed_at(closed_at(s, t1), t2) == closed_at(s, t1),
{
}

} // verus!
