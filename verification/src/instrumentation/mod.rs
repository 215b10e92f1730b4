//! Latency measurement and aggregation instrumentation.
pub mod aggregator;
pub mod event;
pub mod html;
pub mod profiler;
pub mod reporter;
pub mod span;
pub mod svg;
pub mod tracker;

pub use aggregator::LatencyAggregator;
pub use event::EventId;
pub use profiler::Profiler;
pub use reporter::{Reporter, Snapshot};
pub use span::Span;
pub use tracker::EventTracker;
