use vstd::prelude::*;
use crate::span::Span;

verus! {

/// Limits and timings of the batch exporter. Times are in milliseconds.
#[derive(Clone, Copy, Debug, PartialEq, Eq, Structural)]
pub struct BatchConfig {
    /// Most spans held while waiting for export.
    pub max_queue: usize,
    /// Most spans sent in one batch; a full batch is due at once.
    pub max_batch: usize,
    /// Time after the last flush at which a partial batch is due.
    pub interval: u64,
    /// Longest wait for one delivery attempt.
    pub export_timeout: u64,
    /// Attempts after the first failed one before a batch is discarded.
    pub max_retries: u32,
    /// Longest time that the final flush at shutdown may take.
    pub shutdown_deadline: u64,
}

impl BatchConfig {
    pub open spec fn valid(self) -> bool {
        self.max_queue > 0 && self.max_batch > 0
    }
}

/// Closed spans waiting for export, in the order in which they were handed over.
/// When the queue is full the newest span is dropped and counted; producers
/// never wait. After `shutdown` no span is accepted.
pub struct BatchQueue {
    buffer: Vec<Span>,
    config: BatchConfig,
    last_flush: u64,
    dropped: u64,
    stopped: bool,
}

pub open spec fn min_usize(a: usize, b: usize) -> usize {
    if a <= b { a } else { b }
}

impl BatchQueue {
    pub closed spec fn pending(&self) -> Seq<Span> {
        self.buffer@
    }

    pub closed spec fn spec_config(&self) -> BatchConfig {
        self.config
    }

    pub closed spec fn spec_last_flush(&self) -> u64 {
        self.last_flush
    }

    pub closed spec fn spec_dropped(&self) -> u64 {
        self.dropped
    }

    pub closed spec fn spec_stopped(&self) -> bool {
        self.stopped
    }

    pub closed spec fn wf(&self) -> bool {
        self.config.valid() && self.buffer@.len() <= self.config.max_queue
    }

    pub fn new(config: BatchConfig, now: u64) -> (r: BatchQueue)
        requires
            config.valid(),
        ensures
            r.wf(),
            r.pending() == Seq::<Span>::empty(),
            r.spec_config() == config,
            r.spec_last_flush() == now,
            r.spec_dropped() == 0,
            !r.spec_stopped(),
    {
        let r = BatchQueue { buffer: Vec::new(), config, last_flush: now, dropped: 0, stopped: false };
        assert(r.buffer@ =~= Seq::<Span>::empty());
        r
    }

    pub fn len(&self) -> (r: usize)
        ensures
            r == self.pending().len(),
    {
        self.buffer.len()
    }

    pub fn dropped(&self) -> (r: u64)
        ensures
            r == self.spec_dropped(),
    {
        self.dropped
    }

    pub fn is_stopped(&self) -> (r: bool)
        ensures
            r == self.spec_stopped(),
    {
        self.stopped
    }

    /// Hands a span over for export. It is kept when it is closed, the queue is
    /// running and has room; otherwise it is dropped and counted (saturating).
    pub fn enqueue(&mut self, span: Span) -> (r: bool)
        requires
            old(self).wf(),
        ensures
            final(self).wf(),
            r == (!old(self).spec_stopped() && old(self).pending().len() < old(self).spec_config().max_queue
                && !span.is_open()),
            r ==> final(self).pending() == old(self).pending().push(span)
                && final(self).spec_dropped() == old(self).spec_dropped(),
            !r ==> final(self).pending() == old(self).pending()
                && final(self).spec_dropped() == (if old(self).spec_dropped() == u64::MAX {
                    u64::MAX
                } else {
                    (old(self).spec_dropped() + 1) as u64
                }),
            final(self).spec_config() == old(self).spec_config(),
            final(self).spec_last_flush() == old(self).spec_last_flush(),
            final(self).spec_stopped() == old(self).spec_stopped(),
    {
        if !self.stopped && self.buffer.len() < self.config.max_queue && span.end_time.is_some() {
            self.buffer.push(span);
            true
        } else {
            self.dropped = if self.dropped == u64::MAX { u64::MAX } else { self.dropped + 1 };
            false
        }
    }

    /// A flush is due when a full batch is waiting, or when spans are waiting
    /// and the interval has passed since the last flush.
    pub fn flush_due(&self, now: u64) -> (r: bool)
        ensures
            r == (self.pending().len() >= self.spec_config().max_batch
                || (self.pending().len() > 0 && now >= self.spec_last_flush()
                    && now - self.spec_last_flush() >= self.spec_config().interval)),
    {
        let n = self.buffer.len();
        n >= self.config.max_batch || (n > 0 && now >= self.last_flush && now - self.last_flush
            >= self.config.interval)
    }

    /// Takes the oldest spans, at most one batch of them, and notes `now` as the
    /// time of the last flush. The rest stay in order.
    pub fn take_batch(&mut self, now: u64) -> (r: Vec<Span>)
        requires
            old(self).wf(),
        ensures
            final(self).wf(),
            r@ == old(self).pending().take(
                min_usize(old(self).pending().len() as usize, old(self).spec_config().max_batch) as int,
            ),
            final(self).pending() == old(self).pending().skip(
                min_usize(old(self).pending().len() as usize, old(self).spec_config().max_batch) as int,
            ),
            final(self).spec_last_flush() == now,
            final(self).spec_config() == old(self).spec_config(),
            final(self).spec_dropped() == old(self).spec_dropped(),
            final(self).spec_stopped() == old(self).spec_stopped(),
    {
        let n = self.buffer.len();
        let k = if n <= self.config.max_batch { n } else { self.config.max_batch };
        let mut rest = self.buffer.split_off(k);
        std::mem::swap(&mut self.buffer, &mut rest);
        self.last_flush = now;
        assert(rest@ =~= old(self).pending().take(k as int));
        assert(self.buffer@ =~= old(self).pending().skip(k as int));
        rest
    }

    /// Stops the queue and hands back every waiting span, oldest first. A second
    /// call hands back nothing and changes nothing.
    pub fn shutdown(&mut self) -> (r: Vec<Span>)
        requires
            old(self).wf(),
        ensures
            final(self).wf(),
            final(self).spec_stopped(),
            old(self).spec_stopped() ==> r@.len() == 0 && final(self).pending() == old(self).pending(),
            !old(self).spec_stopped() ==> r@ == old(self).pending() && final(self).pending().len() == 0,
            final(self).spec_config() == old(self).spec_config(),
            final(self).spec_dropped() == old(self).spec_dropped(),
            final(self).spec_last_flush() == old(self).spec_last_flush(),
    {
        if self.stopped {
            return Vec::new();
        }
        self.stopped = true;
        let mut all: Vec<Span> = Vec::new();
        std::mem::swap(&mut self.buffer, &mut all);
        all
    }
}

/// What to do with a batch after a delivery attempt failed.
#[derive(Clone, Copy, Debug, PartialEq, Eq, Structural)]
pub enum AfterFailure {
    Retry,
    Discard,
}

/// A batch whose `failed`-th attempt failed (counting from one) is tried again
/// while no more than `max_retries` retries have been made.
pub fn after_failure(failed: u32, max_retries: u32) -> (r: AfterFailure)
    ensures
        r == (if failed <= max_retries { AfterFailure::Retry } else { AfterFailure::Discard }),
{
    if failed <= max_retries {
        AfterFailure::Retry
    } else {
        AfterFailure::Discard
    }
}

} // verus!
