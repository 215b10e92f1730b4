//! Network protocol helpers: handshake, scheduling, and packet traits.
pub mod handshake;
pub mod packets;
pub mod sync_scheduler;
pub mod traits;

pub use crate::clocks::PeerClock;
pub use handshake::{HandshakeProgress, Initiator, Responder};
pub use packets::{
    AckStartClockPacket, InputEventPacket, Packet, PingPacket, PongPacket, StartClockPacket,
    StatsBatchPacket, StatsEvent, SyncPacket,
};
pub use sync_scheduler::SyncScheduler;
pub use traits::{apply_peer_sync, apply_probe, retrieve_peer_sync, retrieve_probe, PeerSync, Probe};
