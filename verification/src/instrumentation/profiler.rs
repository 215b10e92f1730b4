//! The main instrumentation handle.
use vstd::prelude::*;
use crate::clocks::peer_clock::PeerClock;
use crate::clocks::peer_clock::round_usec_to_ms;
use crate::instrumentation::aggregator::{LatencyAggregator, window_after_insert, percentile_of};
use crate::instrumentation::event::EventId;
use crate::instrumentation::reporter::{Reporter, Snapshot, snapshot_of};
use crate::instrumentation::span::Span;

verus! {

/// The main instrumentation handle: mints event identifiers, turns remote
/// finishes into latencies through the peer clock, and aggregates them.
#[derive(Clone, Debug)]
pub struct Profiler {
    clock: PeerClock,
    next_id: u64,
    aggregator: LatencyAggregator,
}

impl Profiler {
    pub closed spec fn wf(&self) -> bool {
        &&& self.clock.wf()
        &&& self.aggregator.wf()
    }

    pub closed spec fn clock_spec(&self) -> PeerClock {
        self.clock
    }

    /// Identifier the next span will receive.
    pub closed spec fn next_id_spec(&self) -> u64 {
        self.next_id
    }

    pub closed spec fn aggregator_spec(&self) -> LatencyAggregator {
        self.aggregator
    }

    pub proof fn lemma_wf(&self)
        requires
            self.wf(),
        ensures
            self.clock_spec().wf(),
            self.aggregator_spec().wf(),
    {
    }

    /// A profiler over `clock` keeping up to 10 000 samples.
    pub fn new(clock: PeerClock) -> (r: Self)
        requires
            clock.wf(),
        ensures
            r.wf(),
            r.clock_spec() == clock,
            r.next_id_spec() == 1,
            r.aggregator_spec()@ == Seq::<u64>::empty(),
            r.aggregator_spec().capacity_spec() == 10_000,
    {
        Self { clock, next_id: 1, aggregator: LatencyAggregator::default() }
    }

    /// A profiler over `clock` keeping up to `capacity` samples.
    pub fn with_capacity(clock: PeerClock, capacity: usize) -> (r: Self)
        requires
            clock.wf(),
        ensures
            r.wf(),
            r.clock_spec() == clock,
            r.next_id_spec() == 1,
            r.aggregator_spec()@ == Seq::<u64>::empty(),
            r.aggregator_spec().capacity_spec() == capacity,
    {
        Self { clock, next_id: 1, aggregator: LatencyAggregator::new(capacity) }
    }

    /// The clock latencies are measured with.
    pub fn clock(&self) -> (r: &PeerClock)
        ensures
            *r == self.clock_spec(),
    {
        &self.clock
    }

    /// Mutable access to the clock, to feed it probe and sync packets.
    pub fn clock_mut(&mut self) -> (r: &mut PeerClock)
        requires
            old(self).wf(),
        ensures
            *r == old(self).clock_spec(),
            final(self).clock_spec() == *final(r),
            final(self).next_id_spec() == old(self).next_id_spec(),
            final(self).aggregator_spec() == old(self).aggregator_spec(),
            final(r).wf() ==> final(self).wf(),
    {
        &mut self.clock
    }

    /// Start a new measurement span at the given local time (milliseconds).
    /// Identifiers increase by one per span (wrapping at `u64::MAX`).
    pub fn start(&mut self, name: &'static str, now_ms: u32) -> (r: Span)
        requires
            old(self).wf(),
        ensures
            final(self).wf(),
            r.event_id_spec() == EventId(old(self).next_id_spec()),
            r.name_spec() == name,
            r.start_spec() == now_ms as u64,
            final(self).next_id_spec() == if old(self).next_id_spec() == u64::MAX {
                0
            } else {
                (old(self).next_id_spec() + 1) as u64
            },
            final(self).clock_spec() == old(self).clock_spec(),
            final(self).aggregator_spec() == old(self).aggregator_spec(),
    {
        let id = EventId(self.next_id);
        self.next_id = self.next_id.wrapping_add(1);
        Span::new(id, name, now_ms as u64)
    }

    /// Record a remote finish for a span and insert the computed latency
    /// (negative latencies count as zero) into the aggregator.
    ///
    /// Returns `Some(latency_ms)` on success, or `None` if the clock is not
    /// yet synchronised or the peer's start time is unknown.
    pub fn finish_remote(&mut self, span: &mut Span, remote_finish_ms: u32) -> (r: Option<u64>)
        requires
            old(self).wf(),
            old(self).clock_spec().peer_spec() matches Some(p) ==> {
                &&& old(self).clock_spec().clock_spec().start_spec() <= i64::MAX
                &&& p <= i64::MAX
                &&& i64::MIN <= round_usec_to_ms(old(self).clock_spec().local_usec_estimate(p, remote_finish_ms as int))
                    - (old(span).start_spec() as i64) <= i64::MAX
            },
        ensures
            final(self).wf(),
            final(self).clock_spec() == old(self).clock_spec(),
            final(self).next_id_spec() == old(self).next_id_spec(),
            final(span).start_spec() == old(span).start_spec(),
            final(span).event_id_spec() == old(span).event_id_spec(),
            ({
                let c = old(self).clock_spec();
                if c.clock_spec().sync_spec().synchronised_spec() && c.peer_spec() is Some {
                    let local = round_usec_to_ms(c.local_usec_estimate(c.peer_spec()->0, remote_finish_ms as int));
                    let latency = local - (old(span).start_spec() as i64);
                    let clamped = if latency < 0 { 0 } else { latency };
                    &&& final(span).finish_spec() == Some(local as i64)
                    &&& r == Some(clamped as u64)
                    &&& final(self).aggregator_spec()@ == window_after_insert(
                        old(self).aggregator_spec()@,
                        old(self).aggregator_spec().capacity_spec(),
                        clamped as u64,
                    )
                    &&& final(self).aggregator_spec().capacity_spec() == old(self).aggregator_spec().capacity_spec()
                } else {
                    &&& r is None
                    &&& final(span).finish_spec() == old(span).finish_spec()
                    &&& final(self).aggregator_spec() == old(self).aggregator_spec()
                }
            }),
    {
        let latency = match span.finish_remote(remote_finish_ms, &self.clock) {
            Some(l) => l,
            None => return None,
        };
        let clamped_latency: u64 = if latency < 0 { 0 } else { latency as u64 };
        self.aggregator.insert(clamped_latency);
        Some(clamped_latency)
    }

    /// Record a latency directly (e.g. computed elsewhere) into the aggregator.
    pub fn record_latency(&mut self, latency_ms: u64)
        requires
            old(self).wf(),
        ensures
            final(self).wf(),
            final(self).clock_spec() == old(self).clock_spec(),
            final(self).next_id_spec() == old(self).next_id_spec(),
            final(self).aggregator_spec()@ == window_after_insert(
                old(self).aggregator_spec()@,
                old(self).aggregator_spec().capacity_spec(),
                latency_ms,
            ),
            final(self).aggregator_spec().capacity_spec() == old(self).aggregator_spec().capacity_spec(),
    {
        self.aggregator.insert(latency_ms);
    }

    /// Capture a snapshot of the current aggregator state.
    pub fn snapshot(&self) -> (r: Snapshot)
        requires
            self.wf(),
        ensures
            ({
                let agg = self.aggregator_spec();
                &&& r.count == agg@.len()
                &&& r.min == if agg@.len() == 0 { None::<u64> } else { Some(agg.sorted_samples()[0]) }
                &&& r.max == if agg@.len() == 0 {
                    None::<u64>
                } else {
                    Some(agg.sorted_samples()[agg@.len() - 1])
                }
                &&& r.p50 == percentile_of(agg.sorted_samples(), 50)
                &&& r.p95 == percentile_of(agg.sorted_samples(), 95)
                &&& r.p99 == percentile_of(agg.sorted_samples(), 99)
            }),
    {
        Snapshot::from_aggregator(&self.aggregator)
    }

    /// Report the current snapshot using the given reporter: the reporter
    /// is handed the statistics of the samples held.
    pub fn report<R: Reporter>(&self, reporter: &mut R)
        requires
            self.wf(),
        ensures
            old(reporter).reported(
                final(reporter),
                snapshot_of(self.aggregator_spec()),
            ),
    {
        let snapshot = self.snapshot();
        reporter.report(&snapshot);
    }

    /// Clear all samples.
    pub fn clear(&mut self)
        requires
            old(self).wf(),
        ensures
            final(self).wf(),
            final(self).clock_spec() == old(self).clock_spec(),
            final(self).next_id_spec() == old(self).next_id_spec(),
            final(self).aggregator_spec()@ == Seq::<u64>::empty(),
            final(self).aggregator_spec().capacity_spec() == old(self).aggregator_spec().capacity_spec(),
    {
        self.aggregator.clear();
    }
}

} // verus!
