//! Measuring event-to-event latency across networked peers with automatic
//! clock synchronisation.
pub mod cli;
pub mod clocks;
pub mod instrumentation;
pub mod net;
pub mod timesync;
