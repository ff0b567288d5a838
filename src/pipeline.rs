use vstd::prelude::*;
use crate::context::{extract, spec_extract, Carrier, TraceContext};
use crate::exporter::BatchQueue;
use crate::hex::hex_text;
use crate::span::{spec_trace_id, AttrValue, Attribute, Span, SpanFactory, SpanKind, SpanStatus};
use vstd::string::StringSliceAdditionalSpecFns;

verus! {

#[derive(Clone, Copy, Debug, PartialEq, Eq, Structural)]
pub enum Route {
    Health,
    Plan,
    Unknown,
}

pub open spec fn health_path() -> Seq<u8> {
    seq![47u8, 104, 101, 97, 108, 116, 104]
}

pub open spec fn plan_path() -> Seq<u8> {
    seq![47u8, 112, 108, 97, 110]
}

pub open spec fn spec_route(path: Seq<u8>) -> Route {
    if path == health_path() {
        Route::Health
    } else if path == plan_path() {
        Route::Plan
    } else {
        Route::Unknown
    }
}

fn bytes_equal(a: &[u8], b: &[u8]) -> (r: bool)
    ensures
        r == (a@ == b@),
{
    if a.len() != b.len() {
        return false;
    }
    let mut i: usize = 0;
    while i < a.len()
        invariant
            a@.len() == b@.len(),
            i <= a@.len(),
            forall|k: int| 0 <= k < i ==> a@[k] == b@[k],
        decreases a@.len() - i,
    {
        if a[i] != b[i] {
            return false;
        }
        i = i + 1;
    }
    assert(a@ =~= b@);
    true
}

/// The route that a request path names.
pub fn route_of(path: &[u8]) -> (r: Route)
    ensures
        r == spec_route(path@),
{
    let health: [u8; 7] = [47, 104, 101, 97, 108, 116, 104];
    let plan: [u8; 5] = [47, 112, 108, 97, 110];
    assert(health@ =~= health_path());
    assert(plan@ =~= plan_path());
    if bytes_equal(path, health.as_slice()) {
        Route::Health
    } else if bytes_equal(path, plan.as_slice()) {
        Route::Plan
    } else {
        Route::Unknown
    }
}

/// The body of the `/plan` reply.
#[derive(Clone, Debug)]
pub struct PlanReply {
    pub from: String,
    pub status: String,
    pub trace_id: String,
}

#[derive(Clone, Debug)]
pub enum ReplyBody {
    Text(String),
    Plan(PlanReply),
    Empty,
}

#[derive(Clone, Debug)]
pub struct Reply {
    pub status: u16,
    pub body: ReplyBody,
}

/// Relies on the `Display` of opentelemetry's `TraceId`, which writes the id
/// as 32 lowercase hex digits (`{:032x}`).
#[verifier::external_body]
fn trace_id_text(id: u128) -> (r: String)
    ensures
        r@ == hex_text(id as nat, 32),
{
    opentelemetry::trace::TraceId::from(id).to_string()
}

/// What the handler of `route` answers inside a span whose trace id is `trace_id`.
pub open spec fn reply_matches(r: Reply, route: Route, service: Seq<char>, trace_id: u128) -> bool {
    match route {
        Route::Health => r.status == 200 && (r.body matches ReplyBody::Text(t) && t@ == "OK"@),
        Route::Plan => r.status == 200 && (r.body matches ReplyBody::Plan(p) && p.from@ == service
            && p.status@ == "success"@ && p.trace_id@ == hex_text(trace_id as nat, 32)),
        Route::Unknown => r.status == 404 && r.body matches ReplyBody::Empty,
    }
}

/// Runs the handler of `route` inside the request span whose context is
/// passed in explicitly: `/plan` reports the trace that the request belongs to.
pub fn handle(route: Route, ctx: &TraceContext, service: &str) -> (r: Reply)
    ensures
        reply_matches(r, route, service@, ctx.trace_id),
{
    match route {
        Route::Health => {
            proof {
                reveal_strlit("OK");
            }
            Reply { status: 200, body: ReplyBody::Text("OK".to_owned()) }
        },
        Route::Plan => {
            proof {
                reveal_strlit("success");
            }
            let p = PlanReply {
                from: service.to_owned(),
                status: "success".to_owned(),
                trace_id: trace_id_text(ctx.trace_id),
            };
            Reply { status: 200, body: ReplyBody::Plan(p) }
        },
        Route::Unknown => Reply { status: 404, body: ReplyBody::Empty },
    }
}

/// The trace id that a request span gets: the parent's when the headers carry
/// one, else the drawn id, else the factory's fallback counter `fb`.
pub open spec fn request_trace_id(headers: Seq<(Seq<u8>, Seq<u8>)>, drawn_trace: u128, fb: u64) -> u128 {
    spec_trace_id(spec_extract(headers), drawn_trace, fb)
}

/// Opens the server span of a request: reads the parent from the headers,
/// starts a span named after the path under it with ids drawn by the caller,
/// and records method and path.
pub fn begin_request(
    factory: &mut SpanFactory,
    headers: &Carrier,
    method: &str,
    path: &str,
    now: u64,
    drawn_trace: u128,
    drawn_span: u64,
) -> (r: Span)
    requires
        old(factory).wf(),
    ensures
        final(factory).wf(),
        r.kind == SpanKind::Server,
        r.name@ == path@,
        r.context.valid(),
        r.start_time == now && r.end_time is None && r.status == SpanStatus::Unset,
        r.parent == spec_extract(headers@),
        r.context.trace_id == request_trace_id(headers@, drawn_trace, old(factory).fallback_value()),
        drawn_span != 0 ==> r.context.span_id == drawn_span,
        r.attributes@.len() == 2,
        r.attributes@[0].key@ == "http.method"@ && (r.attributes@[0].value matches AttrValue::Text(m) && m@ == method@),
        r.attributes@[1].key@ == "http.target"@ && (r.attributes@[1].value matches AttrValue::Text(t) && t@ == path@),
{
    let parent = extract(headers);
    let mut span = factory.start_span_with(path.to_owned(), SpanKind::Server, parent, now, drawn_trace, drawn_span);
    proof {
        reveal_strlit("http.method");
        reveal_strlit("http.target");
    }
    span.record(Attribute { key: "http.method".to_owned(), value: AttrValue::Text(method.to_owned()) });
    span.record(Attribute { key: "http.target".to_owned(), value: AttrValue::Text(path.to_owned()) });
    span
}

/// Milliseconds from `start` to `now`, or zero if the clock went back.
pub open spec fn latency(start: u64, now: u64) -> u64 {
    if now >= start { (now - start) as u64 } else { 0 }
}

/// `n` is `o` after `finish_request(o, outcome, now)`: an open span keeps its
/// identity and attributes, gains the latency and then the status code or the
/// error, is marked as an error when the handler failed, and is closed at
/// `now`; a closed span stays as it is.
pub open spec fn finished_as(n: Span, o: Span, outcome: Result<u16, String>, now: u64) -> bool {
    if !o.is_open() {
        n == o
    } else {
        let k = o.attributes@.len();
        &&& n.end_time == Some(now)
        &&& n.context == o.context && n.parent == o.parent
        &&& n.start_time == o.start_time && n.kind == o.kind && n.name == o.name
        &&& n.attributes@.len() == k + 2
        &&& n.attributes@.subrange(0, k as int) == o.attributes@
        &&& n.attributes@[k as int].key@ == "latency_ms"@
        &&& n.attributes@[k as int].value == AttrValue::Int(latency(o.start_time, now))
        &&& match outcome {
            Ok(code) => n.status == o.status
                && n.attributes@.last().key@ == "http.status_code"@
                && n.attributes@.last().value == AttrValue::Int(code as u64),
            Err(e) => n.status == SpanStatus::Error
                && n.attributes@.last().key@ == "error"@
                && (n.attributes@.last().value matches AttrValue::Text(m) && m@ == e@),
        }
    }
}

/// Records the handler's outcome on the span and closes it at `now`. A failed
/// handler marks the span as an error and records the message; the outcome
/// itself is only read. A span that was already closed is left as it was.
pub fn finish_request(span: &mut Span, outcome: &Result<u16, String>, now: u64)
    ensures
        finished_as(*final(span), *old(span), *outcome, now),
        !final(span).is_open(),
{
    if span.is_closed() {
        return;
    }
    let latency: u64 = if now >= span.start_time { now - span.start_time } else { 0 };
    proof {
        reveal_strlit("latency_ms");
        reveal_strlit("http.status_code");
        reveal_strlit("error");
    }
    let ghost o = *span;
    span.record(Attribute { key: "latency_ms".to_owned(), value: AttrValue::Int(latency) });
    match outcome {
        Ok(code) => {
            span.record(Attribute { key: "http.status_code".to_owned(), value: AttrValue::Int(*code as u64) });
        },
        Err(e) => {
            span.set_status(SpanStatus::Error);
            span.record(Attribute { key: "error".to_owned(), value: AttrValue::Text(e.clone()) });
        },
    }
    span.close(now);
    assert(span.attributes@.subrange(0, o.attributes@.len() as int) =~= o.attributes@);
}

/// The dropped count after one more drop (it stops at the largest value).
pub open spec fn one_more(d: u64) -> u64 {
    if d == u64::MAX { u64::MAX } else { (d + 1) as u64 }
}

/// Ends a request: finishes and closes the span (see `finish_request`) and
/// hands it to the export queue. It is queued exactly when the queue is
/// running and has room; otherwise it is dropped and the drop counted. This
/// holds whether the handler succeeded or failed.
pub fn complete_request(queue: &mut BatchQueue, span: Span, outcome: &Result<u16, String>, now: u64) -> (r: bool)
    requires
        old(queue).wf(),
    ensures
        final(queue).wf(),
        r == (!old(queue).spec_stopped() && old(queue).pending().len() < old(queue).spec_config().max_queue),
        r ==> final(queue).pending().len() == old(queue).pending().len() + 1
            && final(queue).pending().drop_last() == old(queue).pending()
            && finished_as(final(queue).pending().last(), span, *outcome, now)
            && final(queue).spec_dropped() == old(queue).spec_dropped(),
        !r ==> final(queue).pending() == old(queue).pending()
            && final(queue).spec_dropped() == one_more(old(queue).spec_dropped()),
        final(queue).spec_config() == old(queue).spec_config(),
        final(queue).spec_stopped() == old(queue).spec_stopped(),
{
    let mut span = span;
    finish_request(&mut span, outcome, now);
    let r = queue.enqueue(span);
    proof {
        if r {
            assert(final(queue).pending().drop_last() =~= old(queue).pending());
        }
    }
    r
}

/// One request through the whole pipeline: open the span with the drawn ids,
/// run the handler inside it, record the response, close the span at
/// `finished` and hand it to the export queue. The reply never depends on the
/// exporter.
pub fn serve(
    factory: &mut SpanFactory,
    queue: &mut BatchQueue,
    headers: &Carrier,
    method: &str,
    path: &str,
    service: &str,
    started: u64,
    finished: u64,
    drawn_trace: u128,
    drawn_span: u64,
) -> (r: Reply)
    requires
        old(factory).wf(),
        old(queue).wf(),
    ensures
        final(factory).wf(),
        final(queue).wf(),
        reply_matches(
            r,
            spec_route(path.spec_bytes()),
            service@,
            request_trace_id(headers@, drawn_trace, old(factory).fallback_value()),
        ),
        request_trace_id(headers@, drawn_trace, old(factory).fallback_value()) != 0,
        ({
            let accepted = !old(queue).spec_stopped() && old(queue).pending().len()
                < old(queue).spec_config().max_queue;
            &&& accepted ==> final(queue).pending().len() == old(queue).pending().len() + 1
                && final(queue).pending().drop_last() == old(queue).pending()
                && final(queue).spec_dropped() == old(queue).spec_dropped()
                && ({
                let s = final(queue).pending().last();
                &&& s.start_time == started && s.end_time == Some(finished)
                &&& s.parent == spec_extract(headers@)
                &&& s.kind == SpanKind::Server && s.name@ == path@
                &&& s.context.trace_id == request_trace_id(headers@, drawn_trace, old(factory).fallback_value())
            })
            &&& !accepted ==> final(queue).pending() == old(queue).pending()
                && final(queue).spec_dropped() == one_more(old(queue).spec_dropped())
        }),
{
    let span = begin_request(factory, headers, method, path, started, drawn_trace, drawn_span);
    let route = route_of(path.as_bytes());
    let reply = handle(route, &span.context, service);
    let outcome: Result<u16, String> = Ok(reply.status);
    complete_request(queue, span, &outcome, finished);
    reply
}

} // verus!
