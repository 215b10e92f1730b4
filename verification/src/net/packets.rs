//! The protocol's packet types.
use vstd::prelude::*;
use crate::net::traits::{PeerSync, Probe};
use crate::timesync::counter::Counter24;

verus! {

/// TimeSync sync packet containing the peer's minimum delta.
#[derive(Clone, Copy, Debug, Default, PartialEq, Eq)]
pub struct SyncPacket {
    /// 24-bit probe timestamp set by the sender.
    pub probe_ts24: u32,
    /// 24-bit minimum delta for clock synchronisation.
    pub min_delta_ts24: u32,
}

impl Probe for SyncPacket {
    open spec fn probe_ts(&self) -> nat {
        self.probe_ts24 as nat % 0x100_0000
    }

    open spec fn probe_stamped(&self, after: &Self, ts: nat) -> bool {
        after.min_delta_ts24 == self.min_delta_ts24 && after.probe_ts24 == ts
    }

    fn remote_send_ts(&self) -> (r: Counter24) {
        Counter24::new(self.probe_ts24)
    }

    fn set_local_ts(&mut self, ts: Counter24)
        ensures
            final(self).probe_ts24 == ts.value,
            final(self).min_delta_ts24 == old(self).min_delta_ts24,
    {
        self.probe_ts24 = ts.to_unsigned();
    }
}

impl PeerSync for SyncPacket {
    open spec fn sync_delta(&self) -> nat {
        self.min_delta_ts24 as nat % 0x100_0000
    }

    open spec fn sync_stamped(&self, after: &Self, delta: nat) -> bool {
        after.probe_ts24 == self.probe_ts24 && after.min_delta_ts24 == delta
    }

    fn min_delta_ts(&self) -> (r: Counter24) {
        Counter24::new(self.min_delta_ts24)
    }

    fn set_min_delta_ts(&mut self, ts: Counter24)
        ensures
            final(self).min_delta_ts24 == ts.value,
            final(self).probe_ts24 == old(self).probe_ts24,
    {
        self.min_delta_ts24 = ts.to_unsigned();
    }
}

/// Ping packet with a monotonically increasing sequence number.
#[derive(Clone, Copy, Debug, Default, PartialEq, Eq)]
pub struct PingPacket {
    /// 24-bit probe timestamp set by the sender.
    pub probe_ts24: u32,
    /// Monotonically increasing sequence number.
    pub seq: u32,
}

impl Probe for PingPacket {
    open spec fn probe_ts(&self) -> nat {
        self.probe_ts24 as nat % 0x100_0000
    }

    open spec fn probe_stamped(&self, after: &Self, ts: nat) -> bool {
        after.seq == self.seq && after.probe_ts24 == ts
    }

    fn remote_send_ts(&self) -> (r: Counter24) {
        Counter24::new(self.probe_ts24)
    }

    fn set_local_ts(&mut self, ts: Counter24)
        ensures
            final(self).probe_ts24 == ts.value,
            final(self).seq == old(self).seq,
    {
        self.probe_ts24 = ts.to_unsigned();
    }
}

/// Pong packet echoing the sequence number of the ping it answers.
#[derive(Clone, Copy, Debug, Default, PartialEq, Eq)]
pub struct PongPacket {
    /// 24-bit probe timestamp set by the sender.
    pub probe_ts24: u32,
    /// Sequence number of the ping this pong answers.
    pub ping_seq: u32,
}

impl Probe for PongPacket {
    open spec fn probe_ts(&self) -> nat {
        self.probe_ts24 as nat % 0x100_0000
    }

    open spec fn probe_stamped(&self, after: &Self, ts: nat) -> bool {
        after.ping_seq == self.ping_seq && after.probe_ts24 == ts
    }

    fn remote_send_ts(&self) -> (r: Counter24) {
        Counter24::new(self.probe_ts24)
    }

    fn set_local_ts(&mut self, ts: Counter24)
        ensures
            final(self).probe_ts24 == ts.value,
            final(self).ping_seq == old(self).ping_seq,
    {
        self.probe_ts24 = ts.to_unsigned();
    }
}

/// StartClock packet instructing the peer to start its clock at the given time.
#[derive(Clone, Copy, Debug, Default, PartialEq, Eq)]
pub struct StartClockPacket {
    /// Local clock start time in microseconds.
    pub started_at: u64,
}

/// AckStartClock packet confirming the peer's clock start time.
#[derive(Clone, Copy, Debug, Default, PartialEq, Eq)]
pub struct AckStartClockPacket {
    /// Server's clock start time in microseconds.
    pub started_at: u64,
}

/// Input event packet sent by the client to the server.
#[derive(Clone, Copy, Debug, Default, PartialEq, Eq)]
pub struct InputEventPacket {
    /// 24-bit probe timestamp set by the sender.
    pub probe_ts24: u32,
    /// Monotonically increasing sequence number.
    pub seq: u32,
    /// Character code of the input event.
    pub ch: u8,
    /// Artificial delay applied before sending (ms).
    pub delay_ms: u32,
}

impl Probe for InputEventPacket {
    open spec fn probe_ts(&self) -> nat {
        self.probe_ts24 as nat % 0x100_0000
    }

    open spec fn probe_stamped(&self, after: &Self, ts: nat) -> bool {
        after.seq == self.seq && after.ch == self.ch && after.delay_ms == self.delay_ms && after.probe_ts24 == ts
    }

    fn remote_send_ts(&self) -> (r: Counter24) {
        Counter24::new(self.probe_ts24)
    }

    fn set_local_ts(&mut self, ts: Counter24)
        ensures
            final(self).probe_ts24 == ts.value,
            final(self).seq == old(self).seq,
            final(self).ch == old(self).ch,
            final(self).delay_ms == old(self).delay_ms,
    {
        self.probe_ts24 = ts.to_unsigned();
    }
}

/// A single print event recorded by the server.
#[derive(Clone, Copy, Debug, Default, PartialEq, Eq)]
pub struct StatsEvent {
    /// Sequence number of the original input event.
    pub seq: u32,
    /// Server's local time when the event was printed (ms).
    pub server_print_ms: u32,
}

/// Stats batch packet sent by the server back to the client.
#[derive(Clone, Debug, Default, PartialEq, Eq)]
pub struct StatsBatchPacket {
    /// 24-bit probe timestamp set by the sender.
    pub probe_ts24: u32,
    /// Collected print events to report.
    pub events: Vec<StatsEvent>,
}

impl Probe for StatsBatchPacket {
    open spec fn probe_ts(&self) -> nat {
        self.probe_ts24 as nat % 0x100_0000
    }

    open spec fn probe_stamped(&self, after: &Self, ts: nat) -> bool {
        after.events == self.events && after.probe_ts24 == ts
    }

    fn remote_send_ts(&self) -> (r: Counter24) {
        Counter24::new(self.probe_ts24)
    }

    fn set_local_ts(&mut self, ts: Counter24)
        ensures
            final(self).probe_ts24 == ts.value,
            final(self).events == old(self).events,
    {
        self.probe_ts24 = ts.to_unsigned();
    }
}

/// Unified packet type that can hold any concrete packet.
#[derive(Clone, Debug, PartialEq, Eq)]
pub enum Packet {
    /// A sync packet carrying minimum delta for clock synchronisation.
    Sync(SyncPacket),
    /// A ping packet with a sequence number.
    Ping(PingPacket),
    /// A pong packet echoing a ping's sequence number.
    Pong(PongPacket),
    /// A StartClock packet instructing the peer to start its clock.
    StartClock(StartClockPacket),
    /// An AckStartClock packet confirming the peer's clock start time.
    AckStartClock(AckStartClockPacket),
    /// An input event packet sent by the client to the server.
    InputEvent(InputEventPacket),
    /// A stats batch packet containing collected print events.
    StatsBatch(StatsBatchPacket),
}

} // verus!
