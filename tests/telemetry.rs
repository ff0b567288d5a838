use ev_planner::{
    after_failure, begin_request, complete_request, extract, finish_request, handle, parse_traceparent, route_of, serve,
    AfterFailure, AttrValue, BatchConfig, BatchQueue, Carrier, FlushOutcome, Lifecycle, Phase, ReplyBody, Route,
    ShutdownFlush, SpanFactory, SpanKind, SpanStatus, TraceContext, WrongPhase, SAMPLED,
};

const HEADER: &str = "00-4bf92f3577b34da6a3ce929d0e0e4736-00f067aa0ba902b7-01";

fn carrier_with(name: &str, value: &str) -> Carrier {
    let mut c = Carrier::new();
    c.insert(name.as_bytes().to_vec(), value.as_bytes().to_vec());
    c
}

fn config() -> BatchConfig {
    BatchConfig {
        max_queue: 3,
        max_batch: 2,
        interval: 5000,
        export_timeout: 10000,
        max_retries: 2,
        shutdown_deadline: 15000,
    }
}

#[test]
fn extract_decodes_valid_header() {
    let c = carrier_with("traceparent", HEADER);
    let ctx = extract(&c).expect("context");
    assert_eq!(ctx.trace_id, 0x4bf92f3577b34da6a3ce929d0e0e4736);
    assert_eq!(ctx.span_id, 0x00f067aa0ba902b7);
    assert_eq!(ctx.flags, 1);
    assert!(ctx.is_valid());
    assert!(ctx.is_sampled());
}

#[test]
fn extract_ignores_header_name_case() {
    let mut c = Carrier::new();
    c.insert(b"accept".to_vec(), b"*/*".to_vec());
    c.insert(b"TraceParent".to_vec(), HEADER.as_bytes().to_vec());
    assert_eq!(c.len(), 2);
    let ctx = extract(&c).expect("context");
    assert_eq!(ctx.trace_id, 0x4bf92f3577b34da6a3ce929d0e0e4736);
}

#[test]
fn extract_uses_first_matching_header() {
    let mut c = Carrier::new();
    c.insert(b"traceparent".to_vec(), b"garbage".to_vec());
    c.insert(b"traceparent".to_vec(), HEADER.as_bytes().to_vec());
    assert_eq!(extract(&c), None);
}

#[test]
fn extract_without_header_is_none() {
    assert_eq!(extract(&Carrier::new()), None);
    assert_eq!(extract(&carrier_with("x-other", HEADER)), None);
}

#[test]
fn malformed_headers_give_no_context() {
    let bad = [
        "",
        "00-4bf92f3577b34da6a3ce929d0e0e4736-00f067aa0ba902b7",
        "00-4BF92F3577B34DA6A3CE929D0E0E4736-00f067aa0ba902b7-01",
        "00-4bf92f3577b34da6a3ce929d0e0e473-600f067aa0ba902b7-01",
        "00-00000000000000000000000000000000-00f067aa0ba902b7-01",
        "00-4bf92f3577b34da6a3ce929d0e0e4736-0000000000000000-01",
        "00-4bf92f3577b34da6a3ce929d0e0e4736-00f067aa0ba902b7-01-extra",
        "01-4bf92f3577b34da6a3ce929d0e0e4736-00f067aa0ba902b7-01-more",
        "00-4bf92f3577b34da6a3ce929d0e0e4736-00f067aa0ba902b7-0",
        "00:4bf92f3577b34da6a3ce929d0e0e4736:00f067aa0ba902b7:01",
        "0g-4bf92f3577b34da6a3ce929d0e0e4736-00f067aa0ba902b7-01",
        "01-4bf92f3577b34da6a3ce929d0e0e4736-00f067aa0ba902b7-01x",
    ];
    for v in bad.iter() {
        assert_eq!(parse_traceparent(v.as_bytes()), None, "{}", v);
        assert_eq!(extract(&carrier_with("traceparent", v)), None, "{}", v);
    }
}

#[test]
fn any_flags_and_version_are_kept() {
    let v = "00-4bf92f3577b34da6a3ce929d0e0e4736-00f067aa0ba902b7-03";
    let ctx = parse_traceparent(v.as_bytes()).expect("context");
    assert_eq!(ctx.trace_id, 0x4bf92f3577b34da6a3ce929d0e0e4736);
    assert_eq!(ctx.flags, 3);
    let v = "ff-4bf92f3577b34da6a3ce929d0e0e4736-00f067aa0ba902b7-fe";
    let ctx = parse_traceparent(v.as_bytes()).expect("context");
    assert_eq!(ctx.flags, 0xfe);
    assert!(!ctx.is_sampled());
}

#[test]
fn unsampled_flags_are_kept_as_sent() {
    let v = "00-4bf92f3577b34da6a3ce929d0e0e4736-00f067aa0ba902b7-02";
    let ctx = parse_traceparent(v.as_bytes()).expect("context");
    assert_eq!(ctx.flags, 2);
    assert!(!ctx.is_sampled());
}

#[test]
fn lookup_key_case_is_ignored() {
    let c = carrier_with("traceparent", HEADER);
    assert_eq!(c.get(b"TraceParent"), Some(HEADER.as_bytes()));
    assert_eq!(c.get(b"TRACEPARENT"), Some(HEADER.as_bytes()));
    assert_eq!(c.get(b"tracestate"), None);
}

#[test]
fn non_text_value_reads_as_absent() {
    let mut c = Carrier::new();
    c.insert(b"traceparent".to_vec(), vec![0x30, 0x80, 0x31]);
    assert_eq!(c.get(b"traceparent"), None);
    assert_eq!(extract(&c), None);
    let t = carrier_with("x-a", "tab\there");
    assert!(t.get(b"x-a").is_some());
}

#[test]
fn no_parent_starts_fresh_trace() {
    let mut f = SpanFactory::new();
    let parent = extract(&carrier_with("traceparent", "bogus"));
    let s = f.start_span_with("work".to_string(), SpanKind::Internal, parent, 7, 0x1234, 0x99);
    assert!(s.parent.is_none());
    assert_ne!(s.context.trace_id, 0);
    assert_ne!(s.context.span_id, 0);
    assert_eq!(s.context.flags, SAMPLED);
    assert_eq!(s.start_time, 7);
    assert!(!s.is_closed());
    assert_eq!(s.status, SpanStatus::Unset);
}

#[test]
fn zero_draws_fall_back_to_counter() {
    let mut f = SpanFactory::new();
    let a = f.start_span_with("a".to_string(), SpanKind::Server, None, 1, 0, 0);
    let b = f.start_span_with("b".to_string(), SpanKind::Server, None, 2, 0, 0);
    assert_ne!(a.context.trace_id, 0);
    assert_ne!(a.context.span_id, 0);
    assert_ne!(a.context.span_id, b.context.span_id);
    assert_ne!(a.context.trace_id, b.context.trace_id);
    let c = f.start_span_with("c".to_string(), SpanKind::Server, None, 3, 9, 11);
    assert_eq!(c.context.trace_id, 9);
    assert_eq!(c.context.span_id, 11);
}

#[test]
fn child_joins_parent_trace() {
    let p = TraceContext { trace_id: 0xabc, span_id: 0x42, flags: 0 };
    let mut f = SpanFactory::new();
    let s = f.start_span_with("child".to_string(), SpanKind::Client, Some(p), 5, 0x777, 0x55);
    assert_eq!(s.context.trace_id, 0xabc);
    assert_eq!(s.parent_span_id(), Some(0x42));
    assert_eq!(s.context.flags, 0);
    assert_eq!(s.kind, SpanKind::Client);
}

#[test]
fn invalid_parent_is_ignored() {
    let p = TraceContext { trace_id: 0, span_id: 0x42, flags: 1 };
    let mut f = SpanFactory::new();
    let s = f.start_span_with("x".to_string(), SpanKind::Server, Some(p), 5, 77, 88);
    assert_eq!(s.parent, None);
    assert_eq!(s.context.trace_id, 77);
}

#[test]
fn span_closes_exactly_once() {
    let mut f = SpanFactory::new();
    let mut s = f.start_span_with("x".to_string(), SpanKind::Internal, None, 10, 3, 4);
    assert!(s.close(20));
    assert_eq!(s.end_time, Some(20));
    assert!(!s.close(30));
    assert_eq!(s.end_time, Some(20));
    assert!(!s.set_status(SpanStatus::Error));
    assert_eq!(s.status, SpanStatus::Unset);
}

#[test]
fn failed_handler_closes_span_as_error() {
    let mut f = SpanFactory::new();
    let c = carrier_with("traceparent", HEADER);
    let mut s = begin_request(&mut f, &c, "GET", "/plan", 100, 5, 6);
    assert_eq!(s.attributes.len(), 2);
    assert_eq!(s.name, "/plan");
    let outcome: Result<u16, String> = Err("boom".to_string());
    finish_request(&mut s, &outcome, 130);
    assert_eq!(s.end_time, Some(130));
    assert_eq!(s.status, SpanStatus::Error);
    assert!(matches!(&s.attributes[2].value, AttrValue::Int(30)));
    assert!(matches!(&s.attributes[3].value, AttrValue::Text(m) if m == "boom"));
    assert_eq!(outcome, Err("boom".to_string()));
    let n = s.attributes.len();
    finish_request(&mut s, &Ok(200), 500);
    assert_eq!(s.end_time, Some(130));
    assert_eq!(s.attributes.len(), n);
}

#[test]
fn routes_are_recognised() {
    assert_eq!(route_of(b"/health"), Route::Health);
    assert_eq!(route_of(b"/plan"), Route::Plan);
    assert_eq!(route_of(b"/plans"), Route::Unknown);
    assert_eq!(route_of(b""), Route::Unknown);
}

#[test]
fn health_without_headers() {
    let mut f = SpanFactory::new();
    let mut q = BatchQueue::new(config(), 0);
    let r = serve(&mut f, &mut q, &Carrier::new(), "GET", "/health", "ev-planner", 0, 3, 0x51, 0x52);
    assert_eq!(r.status, 200);
    assert!(matches!(&r.body, ReplyBody::Text(t) if t == "OK"));
    assert_eq!(q.len(), 1);
    let batch = q.shutdown();
    let s = &batch[0];
    assert!(s.parent.is_none());
    assert_eq!(s.context.trace_id, 0x51);
    assert_eq!(s.start_time, 0);
    assert_eq!(s.end_time, Some(3));
    assert_eq!(s.kind, SpanKind::Server);
}

#[test]
fn plan_reports_incoming_trace_id() {
    let mut f = SpanFactory::new();
    let mut q = BatchQueue::new(config(), 0);
    let c = carrier_with("traceparent", HEADER);
    let r = serve(&mut f, &mut q, &c, "GET", "/plan", "ev-planner", 0, 1, 0x51, 0x52);
    assert_eq!(r.status, 200);
    match &r.body {
        ReplyBody::Plan(p) => {
            assert_eq!(p.from, "ev-planner");
            assert_eq!(p.status, "success");
            assert_eq!(p.trace_id, "4bf92f3577b34da6a3ce929d0e0e4736");
        }
        _ => panic!("expected a plan reply"),
    }
    let batch = q.take_batch(1);
    assert_eq!(batch[0].parent_span_id(), Some(0x00f067aa0ba902b7));
}

#[test]
fn plan_reply_pads_trace_id() {
    let mut f = SpanFactory::new();
    let s = f.start_span_with("p".to_string(), SpanKind::Server, None, 0, 0x2a, 1);
    let r = handle(Route::Plan, &s.context, "svc");
    match &r.body {
        ReplyBody::Plan(p) => assert_eq!(p.trace_id, "0000000000000000000000000000002a"),
        _ => panic!("expected a plan reply"),
    }
    let u = handle(Route::Unknown, &s.context, "svc");
    assert_eq!(u.status, 404);
}

#[test]
fn requests_succeed_when_collector_is_unreachable() {
    let mut f = SpanFactory::new();
    let mut q = BatchQueue::new(config(), 0);
    for i in 0..10u64 {
        let r = serve(&mut f, &mut q, &Carrier::new(), "GET", "/health", "ev-planner", i, i + 1, 0x51, 0x52);
        assert_eq!(r.status, 200);
    }
    assert_eq!(q.len(), 3);
    assert_eq!(q.dropped(), 7);
    let cfg = config();
    let mut flush = ShutdownFlush::new(&cfg);
    let mut attempts = 0;
    while let Some(budget) = flush.next_budget(&cfg) {
        flush.record(&cfg, budget, false);
        attempts += 1;
    }
    assert_eq!(flush.outcome, FlushOutcome::Abandoned);
    assert!(flush.elapsed <= cfg.shutdown_deadline);
    assert_eq!(flush.elapsed, 15000);
    assert_eq!(attempts, 2);
}

#[test]
fn shutdown_flush_delivered() {
    let cfg = config();
    let mut flush = ShutdownFlush::new(&cfg);
    assert_eq!(flush.next_budget(&cfg), Some(10000));
    flush.record(&cfg, 4000, false);
    assert_eq!(flush.outcome, FlushOutcome::Pending);
    assert_eq!(flush.next_budget(&cfg), Some(10000));
    flush.record(&cfg, 2000, true);
    assert_eq!(flush.outcome, FlushOutcome::Delivered);
    assert_eq!(flush.elapsed, 6000);
    assert_eq!(flush.next_budget(&cfg), None);
}

#[test]
fn shutdown_flush_stops_after_retries() {
    let cfg = BatchConfig { shutdown_deadline: 100000, ..config() };
    let mut flush = ShutdownFlush::new(&cfg);
    let mut attempts = 0;
    while let Some(budget) = flush.next_budget(&cfg) {
        flush.record(&cfg, budget / 10, false);
        attempts += 1;
    }
    assert_eq!(attempts, 3);
    assert_eq!(flush.failures, 3);
    assert_eq!(flush.outcome, FlushOutcome::Abandoned);
}

#[test]
fn zero_deadline_flush_never_starts() {
    let cfg = BatchConfig { shutdown_deadline: 0, ..config() };
    let flush = ShutdownFlush::new(&cfg);
    assert_eq!(flush.outcome, FlushOutcome::Abandoned);
    assert_eq!(flush.next_budget(&cfg), None);
}

#[test]
fn queue_batches_in_order() {
    let mut f = SpanFactory::new();
    let mut q = BatchQueue::new(config(), 0);
    let open = f.start_span_with("open".to_string(), SpanKind::Internal, None, 0, 5, 5);
    assert!(!q.enqueue(open));
    assert_eq!(q.dropped(), 1);
    for i in 1..4u128 {
        let mut s = f.start_span_with("s".to_string(), SpanKind::Internal, None, 0, i, 1);
        s.close(1);
        assert!(q.enqueue(s));
    }
    assert!(q.flush_due(0));
    let b = q.take_batch(50);
    assert_eq!(b.len(), 2);
    assert_eq!(b[0].context.trace_id, 1);
    assert_eq!(b[1].context.trace_id, 2);
    assert_eq!(q.len(), 1);
    assert!(!q.flush_due(100));
    assert!(q.flush_due(5050));
    let rest = q.shutdown();
    assert_eq!(rest.len(), 1);
    assert_eq!(rest[0].context.trace_id, 3);
    assert!(q.is_stopped());
    assert!(q.shutdown().is_empty());
    let mut late = f.start_span_with("late".to_string(), SpanKind::Internal, None, 0, 4, 4);
    late.close(2);
    assert!(!q.enqueue(late));
}

#[test]
fn retry_policy() {
    assert_eq!(after_failure(1, 2), AfterFailure::Retry);
    assert_eq!(after_failure(2, 2), AfterFailure::Retry);
    assert_eq!(after_failure(3, 2), AfterFailure::Discard);
    assert_eq!(after_failure(1, 0), AfterFailure::Discard);
}

#[test]
fn lifecycle_runs_in_order() {
    let mut l = Lifecycle::new();
    assert_eq!(l.phase(), Phase::Uninitialized);
    assert!(!l.accepts_requests());
    assert_eq!(l.begin_shutdown(), Err(WrongPhase { found: Phase::Uninitialized }));
    assert_eq!(l.start(), Ok(()));
    assert!(l.accepts_requests());
    assert_eq!(l.start(), Err(WrongPhase { found: Phase::Running }));
    assert_eq!(l.finish(), Err(WrongPhase { found: Phase::Running }));
    assert_eq!(l.begin_shutdown(), Ok(()));
    assert!(!l.accepts_requests());
    assert_eq!(l.finish(), Ok(()));
    assert_eq!(l.phase(), Phase::Stopped);
    assert_eq!(l.start(), Err(WrongPhase { found: Phase::Stopped }));
}

#[test]
fn overlong_attempt_counts_only_its_budget() {
    let cfg = config();
    let mut flush = ShutdownFlush::new(&cfg);
    flush.record(&cfg, 99999, false);
    assert_eq!(flush.elapsed, 10000);
    assert_eq!(flush.failures, 1);
    assert_eq!(flush.outcome, FlushOutcome::Pending);
    assert_eq!(flush.next_budget(&cfg), Some(5000));
}

#[test]
fn failed_request_is_closed_and_queued() {
    let mut f = SpanFactory::new();
    let mut q = BatchQueue::new(config(), 0);
    let c = carrier_with("traceparent", HEADER);
    let s = begin_request(&mut f, &c, "GET", "/plan", 10, 0, 0);
    assert_ne!(s.context.span_id, 0);
    assert_eq!(s.context.trace_id, 0x4bf92f3577b34da6a3ce929d0e0e4736);
    let outcome: Result<u16, String> = Err("500 Internal Server Error".to_string());
    assert!(complete_request(&mut q, s, &outcome, 25));
    let batch = q.shutdown();
    assert_eq!(batch.len(), 1);
    assert_eq!(batch[0].end_time, Some(25));
    assert_eq!(batch[0].status, SpanStatus::Error);
    assert!(matches!(&batch[0].attributes[2].value, AttrValue::Int(15)));
    let late = begin_request(&mut f, &c, "GET", "/plan", 30, 1, 1);
    assert!(!complete_request(&mut q, late, &Ok(200), 31));
    assert_eq!(q.dropped(), 1);
}
