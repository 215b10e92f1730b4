use impatience::clocks::PeerClock;
use impatience::net::PeerSync;
use impatience::net::{PingPacket, SyncPacket};

fn is_near(x: u64, y: u64, limit: u64) -> bool {
    if x > y {
        x - y <= limit
    } else {
        y - x <= limit
    }
}

#[test]
fn peer_clock_clone_shares_state() {
    let mut a = PeerClock::new();
    a.start(1_000_000);
    let b = a.clone();

    let now = 3_500_000;
    assert_eq!(a.local_ms(now), b.local_ms(now));
}

#[test]
fn peer_clock_full_sync() {
    let clock_delta: u64 = 10_000; // 10 ms
    let owd_usec: u32 = 5_000; // 5 ms

    let mut global_usec: u64 = 0;
    let mut a = PeerClock::new();
    let mut b = PeerClock::new();

    a.start(global_usec);
    b.start(global_usec + clock_delta);

    let mut advance = |us: u64| -> (u64, u64) {
        global_usec += us;
        (global_usec, global_usec + clock_delta)
    };

    // Exchange several rounds of probe data.
    for _ in 0..10 {
        let (local_a, _local_b) = advance(owd_usec as u64);
        let mut ping_a = PingPacket::default();
        a.stamp_probe(&mut ping_a, local_a);

        let (_local_a, local_b) = advance(owd_usec as u64);
        b.on_probe(&ping_a, local_b);

        let (_local_a, local_b) = advance(owd_usec as u64);
        let mut ping_b = PingPacket::default();
        b.stamp_probe(&mut ping_b, local_b);

        let (local_a, _local_b) = advance(owd_usec as u64);
        a.on_probe(&ping_b, local_a);
    }

    // Exchange sync data.
    let min_delta_a = a.min_delta();
    let min_delta_b = b.min_delta();

    let mut sync_b = SyncPacket::default();
    sync_b.set_min_delta_ts(min_delta_b);
    a.on_sync(&sync_b);

    let mut sync_a = SyncPacket::default();
    sync_a.set_min_delta_ts(min_delta_a);
    b.on_sync(&sync_a);

    assert!(a.is_synchronised());
    assert!(b.is_synchronised());

    let correction_a = a.correction_ms().unwrap();
    let correction_b = b.correction_ms().unwrap();

    assert!(
        is_near(correction_a as u64, 10, 2),
        "correction_a {} not near 10 ms",
        correction_a
    );
    assert!(
        is_near(correction_b.unsigned_abs(), 10, 2),
        "correction_b {} not near -10 ms",
        correction_b
    );
}
