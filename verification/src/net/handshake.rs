//! The StartClock handshake that establishes peer start times.
use vstd::prelude::*;
use crate::net::packets::{AckStartClockPacket, Packet, StartClockPacket};

verus! {

/// Result of feeding a received packet into the handshake state machine.
#[derive(Clone, Copy, Debug, PartialEq, Eq)]
pub enum HandshakeProgress {
    /// The handshake is not yet complete; continue waiting for packets.
    Pending,
    /// The handshake completed successfully.
    Complete {
        /// The peer's clock start time in microseconds.
        peer_started_at: u64,
    },
    /// The received packet was not relevant to the handshake.
    Ignored,
}

/// Default number of StartClock retries before the initiator gives up.
pub const DEFAULT_MAX_RETRIES: u32 = 50;

/// Initiator-side (client) handshake state machine.
///
/// Manages retry tracking for the StartClock exchange.
/// The caller is responsible for socket I/O and retry timing.
pub struct Initiator {
    started_at: u64,
    retries: u32,
    max_retries: u32,
}

impl Initiator {
    pub closed spec fn started_at_spec(&self) -> u64 {
        self.started_at
    }

    pub closed spec fn retries_spec(&self) -> u32 {
        self.retries
    }

    pub closed spec fn max_retries_spec(&self) -> u32 {
        self.max_retries
    }

    /// Create a new initiator with the default max retries (50).
    pub fn new(started_at: u64) -> (r: Self)
        ensures
            r.started_at_spec() == started_at,
            r.retries_spec() == 0,
            r.max_retries_spec() == DEFAULT_MAX_RETRIES,
    {
        Self { started_at, retries: 0, max_retries: DEFAULT_MAX_RETRIES }
    }

    /// Create a new initiator with a custom max retry count.
    pub fn with_max_retries(started_at: u64, max_retries: u32) -> (r: Self)
        ensures
            r.started_at_spec() == started_at,
            r.retries_spec() == 0,
            r.max_retries_spec() == max_retries,
    {
        Self { started_at, retries: 0, max_retries }
    }

    /// Get the StartClock packet to send (or resend on retry).
    pub fn initial_packet(&self) -> (r: StartClockPacket)
        ensures
            r.started_at == self.started_at_spec(),
    {
        StartClockPacket { started_at: self.started_at }
    }

    /// Number of retries attempted so far.
    pub fn retries(&self) -> (r: u32)
        ensures
            r == self.retries_spec(),
    {
        self.retries
    }

    /// Returns `true` if the maximum retry count has been reached.
    pub fn exhausted(&self) -> (r: bool)
        ensures
            r == (self.retries_spec() >= self.max_retries_spec()),
    {
        self.retries >= self.max_retries
    }

    /// Record that a timeout occurred and a retry will be attempted
    /// (the count saturates at `u32::MAX`).
    pub fn record_retry(&mut self)
        ensures
            final(self).retries_spec() == if old(self).retries_spec() == u32::MAX {
                u32::MAX
            } else {
                (old(self).retries_spec() + 1) as u32
            },
            final(self).started_at_spec() == old(self).started_at_spec(),
            final(self).max_retries_spec() == old(self).max_retries_spec(),
    {
        self.retries = self.retries.saturating_add(1);
    }

    /// Feed a received packet into the handshake state machine: an
    /// AckStartClock completes the handshake with the peer's start time,
    /// anything else is ignored.
    pub fn on_receive(&mut self, packet: &Packet) -> (r: HandshakeProgress)
        ensures
            r == match *packet {
                Packet::AckStartClock(ack) => HandshakeProgress::Complete { peer_started_at: ack.started_at },
                _ => HandshakeProgress::Ignored,
            },
            *final(self) == *old(self),
    {
        match packet {
            Packet::AckStartClock(ack) => HandshakeProgress::Complete { peer_started_at: ack.started_at },
            _ => HandshakeProgress::Ignored,
        }
    }
}

/// Responder-side (server) handshake handler.
///
/// Stateless: processes a single StartClock packet and returns the ack.
pub struct Responder;

impl Responder {
    /// Process a received StartClock packet and produce the ack to send back.
    ///
    /// Returns the ack packet (carrying the local start time) and the peer's
    /// start time.
    pub fn on_start_clock(packet: &StartClockPacket, local_now_usec: u64) -> (r: (AckStartClockPacket, u64))
        ensures
            r.0.started_at == local_now_usec,
            r.1 == packet.started_at,
    {
        let ack = AckStartClockPacket { started_at: local_now_usec };
        (ack, packet.started_at)
    }
}

/// After `max_retries` recorded timeouts the initiator is exhausted, and it
/// never becomes un-exhausted by recording more.
pub proof fn lemma_retries_exhaust(before: Initiator, after: Initiator)
    requires
        after.started_at_spec() == before.started_at_spec(),
        after.max_retries_spec() == before.max_retries_spec(),
        after.retries_spec() == if before.retries_spec() == u32::MAX {
            u32::MAX
        } else {
            (before.retries_spec() + 1) as u32
        },
    ensures
        after.retries_spec() >= before.retries_spec(),
        before.retries_spec() >= before.max_retries_spec() ==> after.retries_spec() >= after.max_retries_spec(),
        before.retries_spec() + 1 == before.max_retries_spec() ==> after.retries_spec() >= after.max_retries_spec(),
{
}

} // verus!
