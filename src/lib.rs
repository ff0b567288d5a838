//! Trace-context propagation and span lifecycle for a small HTTP service.
//!
//! The library holds the decisions of the telemetry pipeline: reading a parent
//! trace context from request headers, creating request spans linked to that
//! parent, closing spans exactly once, buffering closed spans for export with an
//! explicit drop policy, and the lifecycle of the telemetry state.
pub mod hex;
pub mod context;
pub mod span;
pub mod exporter;
pub mod lifecycle;
pub mod pipeline;
pub mod laws;

pub use hex::{hex_value, is_hex_digit, all_hex, hex_digit_value};
pub use context::{Carrier, TraceContext, extract, parse_traceparent};
pub use span::{AttrValue, Attribute, Span, SpanFactory, SpanKind, SpanStatus, SAMPLED};
pub use exporter::{after_failure, AfterFailure, BatchConfig, BatchQueue};
pub use lifecycle::{lemma_shutdown_within_deadline, FlushOutcome, Lifecycle, Phase, ShutdownFlush, WrongPhase};
pub use pipeline::{begin_request, complete_request, finish_request, handle, route_of, serve, PlanReply, Reply, ReplyBody, Route};
pub use laws::{lemma_child_joins_parent_trace, lemma_closed_once, lemma_extract_decodes_fields, lemma_hex_text_of_value, lemma_no_parent_fresh_trace, lemma_reported_trace_id_is_header_field};
