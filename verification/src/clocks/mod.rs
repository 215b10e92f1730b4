//! Clock abstractions for local and peer time tracking.
pub mod format;
pub mod peer_clock;
pub mod synced_clock;

pub use format::{format_probe_stats, format_sync_stats};
pub use peer_clock::PeerClock;
pub use synced_clock::SyncedClock;
