//! Point-in-time snapshots of latency statistics, and their reporting.
use vstd::prelude::*;
use vstd::string::StringExecFns;
use crate::clocks::format::{decimal, push_decimal};
use crate::instrumentation::aggregator::{LatencyAggregator, percentile_of};

verus! {

/// A point-in-time snapshot of an aggregator's state.
#[derive(Clone, Copy, Debug, PartialEq, Eq)]
pub struct Snapshot {
    pub count: usize,
    pub min: Option<u64>,
    pub max: Option<u64>,
    pub p50: Option<u64>,
    pub p95: Option<u64>,
    pub p99: Option<u64>,
}

/// The statistics of the samples `agg` holds.
pub open spec fn snapshot_of(agg: LatencyAggregator) -> Snapshot {
    Snapshot {
        count: agg@.len() as usize,
        min: if agg@.len() == 0 { None } else { Some(agg.sorted_samples()[0]) },
        max: if agg@.len() == 0 { None } else { Some(agg.sorted_samples()[agg@.len() - 1]) },
        p50: percentile_of(agg.sorted_samples(), 50),
        p95: percentile_of(agg.sorted_samples(), 95),
        p99: percentile_of(agg.sorted_samples(), 99),
    }
}

impl Snapshot {
    /// The statistics of the samples `agg` holds.
    pub fn from_aggregator(agg: &LatencyAggregator) -> (r: Self)
        requires
            agg.wf(),
        ensures
            r.count == agg@.len(),
            r.min == if agg@.len() == 0 { None::<u64> } else { Some(agg.sorted_samples()[0]) },
            r.max == if agg@.len() == 0 {
                None::<u64>
            } else {
                Some(agg.sorted_samples()[agg@.len() - 1])
            },
            r.p50 == percentile_of(agg.sorted_samples(), 50),
            r.p95 == percentile_of(agg.sorted_samples(), 95),
            r.p99 == percentile_of(agg.sorted_samples(), 99),
    {
        Self {
            count: agg.count(),
            min: agg.min(),
            max: agg.max(),
            p50: agg.p50(),
            p95: agg.p95(),
            p99: agg.p99(),
        }
    }
}

impl Default for Snapshot {
    fn default() -> (r: Self)
        ensures
            r.count == 0,
            r.min is None,
            r.max is None,
            r.p50 is None,
            r.p95 is None,
            r.p99 is None,
    {
        Self { count: 0, min: None, max: None, p50: None, p95: None, p99: None }
    }
}

/// Rendering of an optional latency: `<n> ms`, or `n/a` when absent.
pub open spec fn latency_text(v: Option<u64>) -> Seq<char> {
    match v {
        Some(ms) => decimal(ms as nat) + " ms"@,
        None => "n/a"@,
    }
}

/// The human-readable summary line of a snapshot.
pub open spec fn console_line_text(s: Snapshot) -> Seq<char> {
    if s.count == 0 {
        "[instrument] no samples yet"@
    } else {
        "[instrument] count="@ + decimal(s.count as nat) + " min="@ + latency_text(s.min) + " p50="@ + latency_text(s.p50)
            + " p95="@ + latency_text(s.p95) + " p99="@ + latency_text(s.p99) + " max="@ + latency_text(s.max)
    }
}

fn push_latency(s: &mut String, v: Option<u64>)
    ensures
        final(s)@ == old(s)@ + latency_text(v),
{
    match v {
        Some(ms) => {
            push_decimal(s, ms);
            s.append(" ms");
        },
        None => s.append("n/a"),
    }
}

/// The one-line, human-readable summary of a snapshot that a console
/// reporter prints.
pub fn console_line(snapshot: &Snapshot) -> (r: String)
    ensures
        r@ == console_line_text(*snapshot),
{
    if snapshot.count == 0 {
        return String::from_str("[instrument] no samples yet");
    }
    let mut s = String::from_str("[instrument] count=");
    push_decimal(&mut s, snapshot.count as u64);
    s.append(" min=");
    push_latency(&mut s, snapshot.min);
    s.append(" p50=");
    push_latency(&mut s, snapshot.p50);
    s.append(" p95=");
    push_latency(&mut s, snapshot.p95);
    s.append(" p99=");
    push_latency(&mut s, snapshot.p99);
    s.append(" max=");
    push_latency(&mut s, snapshot.max);
    s
}

/// Trait for pluggable metric output.
///
/// An implementation may state, through `reported`, what handing it a
/// snapshot does to it; `report` keeps to that statement.  By default
/// nothing is stated of it.
pub trait Reporter {
    /// The reporter went from `self` to `after` on being handed `snapshot`.
    open spec fn reported(&self, after: &Self, snapshot: Snapshot) -> bool {
        true
    }

    fn report(&mut self, snapshot: &Snapshot)
        ensures
            old(self).reported(final(self), *snapshot),
    ;
}

} // verus!
