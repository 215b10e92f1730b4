//! Instrumentation event identifiers.
use vstd::prelude::*;

verus! {

/// Opaque identifier for an instrumentation event.
///
/// Monotonically increasing within a single
/// [`Profiler`](crate::instrumentation::Profiler) instance.  Collision-safe
/// across peers because each peer mints its own IDs.
#[derive(Clone, Copy, Debug, PartialEq, Eq, PartialOrd, Ord, Hash)]
pub struct EventId(pub u64);

} // verus!
