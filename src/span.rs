use vstd::prelude::*;
use crate::context::TraceContext;

verus! {

#[derive(Clone, Copy, Debug, PartialEq, Eq, Structural)]
pub enum SpanKind {
    Server,
    Client,
    Internal,
}

#[derive(Clone, Copy, Debug, PartialEq, Eq, Structural)]
pub enum SpanStatus {
    Unset,
    Success,
    Error,
}

/// A scalar attribute value.
#[derive(Clone, Debug)]
pub enum AttrValue {
    Int(u64),
    Text(String),
}

#[derive(Clone, Debug)]
pub struct Attribute {
    pub key: String,
    pub value: AttrValue,
}

/// One timed unit of work. Open while `end_time` is `None`; once closed,
/// none of the methods below change it again.
#[derive(Clone, Debug)]
pub struct Span {
    pub name: String,
    pub kind: SpanKind,
    pub parent: Option<TraceContext>,
    pub context: TraceContext,
    pub attributes: Vec<Attribute>,
    pub start_time: u64,
    pub end_time: Option<u64>,
    pub status: SpanStatus,
}

/// The sampled flag: every span is recorded.
pub const SAMPLED: u8 = 1;

/// `s` after a close at `now`: an open span gets its end time, a closed one
/// stays as it is.
pub open spec fn closed_at(s: Span, now: u64) -> Span {
    if s.end_time is None {
        Span { end_time: Some(now), ..s }
    } else {
        s
    }
}

impl Span {
    pub open spec fn is_open(&self) -> bool {
        self.end_time is None
    }

    /// The span id of the parent, for a span that has one.
    pub fn parent_span_id(&self) -> (r: Option<u64>)
        ensures
            r == (match self.parent {
                Some(p) => Some(p.span_id),
                None => None,
            }),
    {
        match self.parent {
            Some(p) => Some(p.span_id),
            None => None,
        }
    }

    pub fn is_closed(&self) -> (r: bool)
        ensures
            r == !self.is_open(),
    {
        self.end_time.is_some()
    }

    /// Adds an attribute to an open span; a closed span is left unchanged.
    pub fn record(&mut self, a: Attribute) -> (r: bool)
        ensures
            r == old(self).is_open(),
            r ==> *final(self) == (Span { attributes: final(self).attributes, ..*old(self) }),
            r ==> final(self).attributes@ == old(self).attributes@.push(a),
            !r ==> *final(self) == *old(self),
    {
        if self.end_time.is_none() {
            self.attributes.push(a);
            true
        } else {
            false
        }
    }

    /// Sets the status of an open span; a closed span is left unchanged.
    pub fn set_status(&mut self, s: SpanStatus) -> (r: bool)
        ensures
            r == old(self).is_open(),
            r ==> *final(self) == (Span { status: s, ..*old(self) }),
            !r ==> *final(self) == *old(self),
    {
        if self.end_time.is_none() {
            self.status = s;
            true
        } else {
            false
        }
    }

    /// Closes the span at `now`. Only the first call sets the end time; a later
    /// call returns `false` and leaves the span as it was.
    pub fn close(&mut self, now: u64) -> (r: bool)
        ensures
            r == old(self).is_open(),
            *final(self) == closed_at(*old(self), now),
            r ==> *final(self) == (Span { end_time: Some(now), ..*old(self) }),
            !r ==> *final(self) == *old(self),
    {
        if self.end_time.is_none() {
            self.end_time = Some(now);
            true
        } else {
            false
        }
    }
}

/// The next value of the fallback counter: it counts up and skips zero.
pub open spec fn next_fallback(n: u64) -> u64 {
    if n == u64::MAX {
        1
    } else {
        (n + 1) as u64
    }
}

/// Creates spans. When the random source yields zero, the identifiers come from
/// a local counter instead, so that every span still has non-zero ids.
pub struct SpanFactory {
    fallback: u64,
}

/// The trace id of a span started under `parent` when `drawn` was drawn and
/// the fallback counter stood at `fb`.
pub open spec fn spec_trace_id(parent: Option<TraceContext>, drawn: u128, fb: u64) -> u128 {
    match parent {
        Some(p) if p.valid() => p.trace_id,
        _ => if drawn != 0 { drawn } else { fb as u128 },
    }
}

pub open spec fn spec_span_id(drawn: u64, fb: u64) -> u64 {
    if drawn != 0 { drawn } else { fb }
}

/// `r` is a freshly started span with the given ids: linked to `parent` when
/// that is valid, open, with no attributes and status unset.
pub open spec fn started_as(
    r: Span,
    name: String,
    kind: SpanKind,
    parent: Option<TraceContext>,
    now: u64,
    trace: u128,
    span: u64,
) -> bool {
    let linked = match parent {
        Some(p) if p.valid() => Some(p),
        _ => None,
    };
    &&& r.name == name && r.kind == kind
    &&& r.parent == linked
    &&& r.context == TraceContext {
        trace_id: trace,
        span_id: span,
        flags: match linked {
            Some(p) => p.flags,
            None => SAMPLED,
        },
    }
    &&& r.attributes@.len() == 0
    &&& r.start_time == now && r.end_time is None && r.status == SpanStatus::Unset
}

impl SpanFactory {
    pub closed spec fn fallback_value(&self) -> u64 {
        self.fallback
    }

    pub closed spec fn wf(&self) -> bool {
        self.fallback != 0
    }

    pub fn new() -> (r: SpanFactory)
        ensures
            r.wf(),
    {
        SpanFactory { fallback: 1 }
    }

    fn take_fallback(&mut self) -> (r: u64)
        requires
            old(self).wf(),
        ensures
            final(self).wf(),
            r == old(self).fallback_value(),
            r != 0,
            final(self).fallback_value() == next_fallback(old(self).fallback_value()),
    {
        let r = self.fallback;
        self.fallback = if r == u64::MAX { 1 } else { r + 1 };
        r
    }

    /// Starts a span from ids drawn by the caller. A valid parent gives its
    /// trace id and flags, and is recorded as the parent; otherwise the span
    /// starts a new sampled trace. A drawn id of zero (the random source failed
    /// or gave zero) is replaced by the fallback counter, which then moves on.
    pub fn start_span_with(
        &mut self,
        name: String,
        kind: SpanKind,
        parent: Option<TraceContext>,
        now: u64,
        drawn_trace: u128,
        drawn_span: u64,
    ) -> (r: Span)
        requires
            old(self).wf(),
        ensures
            final(self).wf(),
            ({
                let fb0 = old(self).fallback_value();
                let trace_falls_back = !(parent matches Some(p) && p.valid()) && drawn_trace == 0;
                let fb1 = if trace_falls_back { next_fallback(fb0) } else { fb0 };
                let fb2 = if drawn_span == 0 { next_fallback(fb1) } else { fb1 };
                &&& started_as(r, name, kind, parent, now, spec_trace_id(parent, drawn_trace, fb0), spec_span_id(drawn_span, fb1))
                &&& final(self).fallback_value() == fb2
            }),
            r.context.valid(),
    {
        let linked = match parent {
            Some(p) => if p.is_valid() { Some(p) } else { None },
            None => None,
        };
        let (trace_id, flags) = match linked {
            Some(p) => (p.trace_id, p.flags),
            None => if drawn_trace != 0 {
                (drawn_trace, SAMPLED)
            } else {
                let f = self.take_fallback();
                (f as u128, SAMPLED)
            },
        };
        let span_id = if drawn_span != 0 {
            drawn_span
        } else {
            self.take_fallback()
        };
        Span {
            name,
            kind,
            parent: linked,
            context: TraceContext { trace_id, span_id, flags },
            attributes: Vec::new(),
            start_time: now,
            end_time: None,
            status: SpanStatus::Unset,
        }
    }
}

} // verus!
