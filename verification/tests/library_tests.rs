use impatience::cli::Count;
use impatience::clocks::{format_probe_stats, format_sync_stats, PeerClock, SyncedClock};
use impatience::instrumentation::html::{latency_report_html, NO_EVENTS_PAGE, REPORT_HEAD};
use impatience::instrumentation::reporter::console_line;
use impatience::instrumentation::svg::{draw_axes, draw_axis_labels, empty_svg, svg_open};
use impatience::instrumentation::{EventId, EventTracker, LatencyAggregator, Profiler, Reporter, Snapshot, Span};
use impatience::net::{
    AckStartClockPacket, HandshakeProgress, Initiator, Packet, PingPacket, Responder, StartClockPacket,
    SyncPacket, SyncScheduler,
};
use impatience::timesync::{Counter16, Counter23, Counter24, Counter64, TimeSynchroniser, WindowedMinTS24};

// ---------------------------------------------------------------------------
// Counters
// ---------------------------------------------------------------------------

#[test]
fn counter_add_then_sub_is_identity() {
    let a = Counter24::new(0x00ff_fff0);
    let b = Counter24::new(0x20);
    let sum = a.wrapping_add(b);
    assert_eq!(sum.value, 0x10);
    assert_eq!(sum.wrapping_sub(b), a);
    assert_eq!((a + b) - b, a);

    let x = Counter16::new(3);
    let y = Counter16::new(0xffff);
    assert_eq!((x - y).value, 4);
    assert_eq!((x - y) + y, x);
}

#[test]
fn counter_circular_order_is_strict_and_total() {
    let a = Counter24::new(5);
    let b = Counter24::new(0x10);
    assert!(!a.circ_lt(a));
    assert!(a.circ_le(a));
    assert!(a.circ_ge(a));
    assert!(a.circ_lt(b) && !b.circ_lt(a));
    assert!(b.circ_ge(a) && !a.circ_ge(b));
    // far more than half the space ahead counts as behind
    let far = Counter24::new(0x00f0_0000);
    assert!(far.circ_lt(a));
    assert!(a.circ_gt(far));
}

#[test]
fn expand_recovers_nearby_values() {
    let recent = Counter64::new(0x1234_5678);
    let expanded = Counter64::expand_from_truncated(recent, Counter24::new(0x0034_5680));
    assert_eq!(expanded.value, 0x1234_5680);
    let expanded = Counter64::expand_from_truncated(recent, Counter24::new(0x0034_0000));
    assert_eq!(expanded.value, 0x1234_0000);
    // a small value just past a wrap of the low bits belongs to the next block
    let recent = Counter64::new(0x12ff_fff0);
    let expanded = Counter64::expand_from_truncated(recent, Counter24::new(0x10));
    assert_eq!(expanded.value, 0x1300_0010);
}

#[test]
fn expand_with_bias_shifts_the_window() {
    // bias 0x40 of 0x100: values up to 0xbf behind and 0x3f ahead
    let recent = Counter64::new(0x1000);
    let e = Counter64::expand_from_truncated_with_bias(recent, impatience::timesync::Counter8::new(0x3f), 0x40);
    assert_eq!(e.value, 0x103f);
    let e = Counter64::expand_from_truncated_with_bias(recent, impatience::timesync::Counter8::new(0x40), 0x40);
    assert_eq!(e.value, 0x0f40);
}

// ---------------------------------------------------------------------------
// Synchroniser
// ---------------------------------------------------------------------------

/// Two synchronisers with remote = local + 80 ms and a 4 ms one-way delay
/// each way, after one probe each way and one exchange of minimum deltas.
fn synchronised_pair() -> (TimeSynchroniser, TimeSynchroniser) {
    let offset: u64 = 80_000;
    let owd: u64 = 4_000;
    let mut a = TimeSynchroniser::new();
    let mut b = TimeSynchroniser::new();

    let a_send: u64 = 1_000_000;
    let ts = Counter24::new(TimeSynchroniser::local_time_to_datagram_ts24(a_send));
    assert_eq!(b.on_authenticated_datagram_timestamp(ts, a_send + offset + owd), 0);

    let b_send: u64 = 1_100_000;
    let ts = Counter24::new(TimeSynchroniser::local_time_to_datagram_ts24(b_send));
    assert_eq!(a.on_authenticated_datagram_timestamp(ts, b_send - offset + owd), 0);

    let a_min = a.min_delta_ts24();
    let b_min = b.min_delta_ts24();
    a.on_peer_min_delta_ts24(b_min);
    b.on_peer_min_delta_ts24(a_min);
    (a, b)
}

#[test]
fn synchroniser_recovers_symmetric_delay_and_offset() {
    let (a, b) = synchronised_pair();
    assert!(a.is_synchronised() && b.is_synchronized());
    assert_eq!(a.min_delta_ts24().value, 16_767_716);
    assert_eq!(b.min_delta_ts24().value, 10_500);
    assert_eq!(a.minimum_one_way_delay_usec(), 4_000);
    assert_eq!(b.minimum_one_way_delay_usec(), 4_000);
    assert_eq!(a.remote_time_delta_usec(), 80_000);
    // -80 ms as an unsigned 26-bit value
    assert_eq!(b.remote_time_delta_usec(), (1 << 26) - 80_000);
}

#[test]
fn synchroniser_reports_delay_above_minimum() {
    let (mut a, _) = synchronised_pair();
    // 800 us slower than the fastest datagram seen
    let b_send: u64 = 1_200_000;
    let ts = Counter24::new(TimeSynchroniser::local_time_to_datagram_ts24(b_send));
    assert_eq!(a.on_authenticated_datagram_timestamp(ts, b_send - 80_000 + 4_800), 4_800);
    // once synchronised, it stays so
    assert!(a.is_synchronised());
    a.on_peer_min_delta_ts24(Counter24::new(0));
    assert!(a.is_synchronised());
}

#[test]
fn windowed_min_drops_stale_best() {
    assert!(!WindowedMinTS24::default().is_valid());
    let mut w = WindowedMinTS24::new();
    assert!(!w.is_valid());
    w.update(Counter24::new(100), 0, 1_000);
    assert_eq!(w.best().value, 100);
    // a worse value a quarter window later takes the second and third slots
    w.update(Counter24::new(200), 500, 1_000);
    assert_eq!(w.best().value, 100);
    // the best has aged out of the window: the second best takes over
    w.update(Counter24::new(250), 1_200, 1_000);
    assert_eq!(w.best().value, 200);
    // a better value always becomes the best
    w.update(Counter24::new(150), 1_300, 1_000);
    assert_eq!(w.best().value, 150);
    // the third sample expiring resets the window to the new value
    w.update(Counter24::new(300), 2_400, 1_000);
    assert_eq!(w.best().value, 300);
}

#[test]
fn synchroniser_unsynchronised_until_peer_reports() {
    let mut s = TimeSynchroniser::default();
    assert!(!s.is_synchronised());
    assert_eq!(s.minimum_one_way_delay_usec(), 200_000);
    assert_eq!(s.to_remote_time_23(1_000_000), None);
    assert_eq!(s.to_remote_time_16(1_000_000), None);
    let ts = Counter24::new(TimeSynchroniser::local_time_to_datagram_ts24(10_000));
    assert_eq!(s.on_authenticated_datagram_timestamp(ts, 90_000), 0);
    assert!(!s.is_synchronised());
}

#[test]
fn synchroniser_compact_remote_times() {
    let (a, _) = synchronised_pair();
    // remote time of local 1.2 s is 1.28 s
    assert_eq!(a.to_remote_time_23(1_200_000), Some(160_000));
    assert_eq!(a.to_remote_time_16(1_200_000), Some((1_200_000 / 512 + 80_000 / 512) as u16));
}

#[test]
fn datagram_timestamp_is_eight_microsecond_ticks_in_24_bits() {
    assert_eq!(TimeSynchroniser::local_time_to_datagram_ts24(1_000_000), 125_000);
    assert_eq!(TimeSynchroniser::local_time_to_datagram_ts24(0x0800_0008), 1);
}

#[test]
fn time23_roundtrip() {
    let local: u64 = 1_000_000_000;
    for x in [1_000_005_000u64, 970_000_000, 1_010_000_000] {
        let ts = Counter23::new(((x / 8) % 0x80_0000) as u32);
        assert_eq!(TimeSynchroniser::from_local_time_23(local, ts), x / 8 * 8);
    }
}

#[test]
fn time23_ors_in_the_stored_bits() {
    let local: u64 = 1_000_000_000;
    let ts = ((1_000_005_000u64 / 8) % 0x80_0000) as u32;
    assert_eq!(TimeSynchroniser::from_local_time_23(local, Counter23::new(ts)), 1_000_005_000);
    // a stored value beyond 23 bits is or-ed in as it stands
    let raw = Counter23 { value: ts | 0x0100_0000 };
    assert_eq!(TimeSynchroniser::from_local_time_23(local, raw), 932_896_136);
}

#[test]
fn time16_roundtrip() {
    let local: u64 = 1_000_000_000;
    for x in [1_000_512_000u64, 990_000_128, 1_004_000_000] {
        let ts = Counter16::new(((x / 512) % 0x1_0000) as u16);
        assert_eq!(TimeSynchroniser::from_local_time_16(local, ts), x / 512 * 512);
    }
}

// ---------------------------------------------------------------------------
// Clocks
// ---------------------------------------------------------------------------

#[test]
fn synced_clock_local_ms_before_start_is_zero() {
    let mut c = SyncedClock::new();
    c.start(5_000_000);
    assert_eq!(c.local_ms(4_000_000), 0);
    assert_eq!(c.local_ms(5_000_999), 0);
    assert_eq!(c.local_ms(5_999_999), 999);
    assert_eq!(c.local_ms(6_000_000), 1_000);
    assert_eq!(c.correction_ms(), None);
    assert_eq!(c.correction_usec(), None);
}

#[test]
fn peer_clock_estimates_before_synchronisation() {
    let mut c = PeerClock::new();
    c.start(1_000_000);
    assert_eq!(c.remote_ms(3_000_000, true), None);
    assert_eq!(c.start_delta_ms(), None);
    c.set_peer_started_at(500_000);
    assert_eq!(c.peer_started_at(), Some(500_000));
    assert_eq!(c.start_delta_ms(), Some(500));
    // 2 s local + 0.5 s start offset, minus or plus the default 200 ms delay
    assert_eq!(c.remote_ms(3_000_000, true), Some(2_300));
    assert_eq!(c.remote_ms(3_000_000, false), Some(2_700));
    assert_eq!(c.remote_elapsed_to_local(3_000), Some(2_500));
    c.set_peer_started_at(1_600_500);
    assert_eq!(c.start_delta_ms(), Some(-600));
    assert_eq!(c.remote_elapsed_to_local(0), Some(601));
}

#[test]
fn peer_clock_probe_and_sync_stamping() {
    let mut c = PeerClock::new();
    c.start(0);
    let mut ping = PingPacket::default();
    c.stamp_probe(&mut ping, 8_000);
    assert_eq!(ping.probe_ts24, 1_000);
    let mut sync = SyncPacket::default();
    c.stamp_sync(&mut sync, 16_000);
    assert_eq!(sync.probe_ts24, 2_000);
    assert_eq!(sync.min_delta_ts24, 0);
    assert_eq!(c.on_probe(&ping, 40_000), 0);
    assert_eq!(c.min_delta().value, 4_000);
}

#[test]
fn peer_clocks_convert_exactly_under_symmetric_delays() {
    // b's wall clock is 80 ms ahead of a's; 4 ms one-way delay each way
    let mut a = PeerClock::new();
    let mut b = PeerClock::new();
    a.start(1_000_000);
    b.start(2_000_000);
    a.set_peer_started_at(2_000_000);
    b.set_peer_started_at(1_000_000);

    let mut ping = PingPacket::default();
    a.stamp_probe(&mut ping, 3_000_000);
    b.on_probe(&ping, 3_000_000 + 80_000 + 4_000);
    let mut pong = PingPacket::default();
    b.stamp_probe(&mut pong, 3_100_000);
    a.on_probe(&pong, 3_100_000 - 80_000 + 4_000);

    let mut to_a = SyncPacket::default();
    b.stamp_sync(&mut to_a, 3_200_000);
    let mut to_b = SyncPacket::default();
    a.stamp_sync(&mut to_b, 3_200_000);
    a.on_sync(&to_a);
    b.on_sync(&to_b);

    assert!(a.is_synchronised() && b.is_synchronised());
    assert_eq!(a.correction_usec(), Some(80_000));
    assert_eq!(b.correction_usec(), Some(-80_000));
    assert_eq!(a.minimum_one_way_delay_usec(), 4_000);
    // at a's wall time 4 s, b has been running 2.08 s and a 3 s
    assert_eq!(a.remote_elapsed_to_local(2_080), Some(3_000));
    assert_eq!(a.remote_ms(4_000_000, true), Some(2_076));
    assert_eq!(a.remote_ms(4_000_000, false), Some(2_084));
    assert_eq!(b.remote_elapsed_to_local(3_000), Some(2_080));
}

#[test]
fn stamping_sets_only_the_stamped_fields() {
    let mut c = PeerClock::new();
    c.start(0);
    let mut p = PingPacket { probe_ts24: 7, seq: 9 };
    c.stamp_probe(&mut p, 1_234_567_890);
    assert_eq!(p, PingPacket { probe_ts24: 3_326_042, seq: 9 });
    assert!(!c.is_synchronised());
    assert_eq!(c.min_delta().to_unsigned(), 0);
    let mut s = SyncPacket { probe_ts24: 7, min_delta_ts24: 9 };
    c.stamp_sync(&mut s, 1_234_567_890);
    assert_eq!(s, SyncPacket { probe_ts24: 3_326_042, min_delta_ts24: 0 });
}

#[test]
fn peer_start_enables_remote_conversion() {
    let mut c = PeerClock::new();
    c.start(1_000_000);
    assert_eq!(c.remote_elapsed_to_local(205), None);
    c.set_peer_started_at(1_010_600);
    assert_eq!(c.remote_elapsed_to_local(205), Some(216));
}

#[test]
fn format_probe_stats_exact_line() {
    let line = format_probe_stats("pong", 3, 1500, Some(-20), None, 42, true, Some(7));
    assert_eq!(
        line,
        "pong seq=3 local_ms=1500 remote_ms=-20 correction_ms=- min_delta=42 synced=true start_delta_ms=7"
    );
    let line = format_probe_stats("ping", 0, 0, None, Some(i64::MIN), u32::MAX, false, None);
    assert_eq!(
        line,
        "ping seq=0 local_ms=0 remote_ms=- correction_ms=-9223372036854775808 min_delta=4294967295 synced=false start_delta_ms=-"
    );
}

#[test]
fn format_sync_stats_exact_line() {
    assert_eq!(
        format_sync_stats("client", 5, false, None),
        "client sync received min_delta=5 synced=false start_delta_ms=-"
    );
    assert_eq!(
        format_sync_stats("server", 1024, true, Some(-12)),
        "server sync received min_delta=1024 synced=true start_delta_ms=-12"
    );
}

// ---------------------------------------------------------------------------
// Network helpers
// ---------------------------------------------------------------------------

#[test]
fn handshake_completes_on_ack_only() {
    let mut hs = Initiator::new(1_000_000);
    assert_eq!(hs.initial_packet(), StartClockPacket { started_at: 1_000_000 });
    let other = Packet::StartClock(StartClockPacket { started_at: 7 });
    assert_eq!(hs.on_receive(&other), HandshakeProgress::Ignored);
    let ack = Packet::AckStartClock(AckStartClockPacket { started_at: 2_000_000 });
    assert_eq!(hs.on_receive(&ack), HandshakeProgress::Complete { peer_started_at: 2_000_000 });
}

#[test]
fn handshake_retries_exhaust() {
    let mut hs = Initiator::with_max_retries(5, 2);
    assert!(!hs.exhausted());
    hs.record_retry();
    assert_eq!(hs.retries(), 1);
    assert!(!hs.exhausted());
    hs.record_retry();
    assert!(hs.exhausted());
    let none = Initiator::with_max_retries(5, 0);
    assert!(none.exhausted());
    let default = Initiator::new(5);
    assert!(!default.exhausted());
}

#[test]
fn responder_acknowledges_with_own_start() {
    let pkt = StartClockPacket { started_at: 1_000_000 };
    let (ack, peer) = Responder::on_start_clock(&pkt, 2_000_000);
    assert_eq!(ack.started_at, 2_000_000);
    assert_eq!(peer, 1_000_000);
}

#[test]
fn sync_scheduler_sends_once_per_interval() {
    let mut s = SyncScheduler::new(2, 1_000);
    assert!(!s.should_send(1_000));
    assert!(!s.should_send(2_999));
    assert!(s.should_send(3_000));
    assert!(!s.should_send(4_999));
    assert!(s.should_send(5_500));
    s.reset(10_000);
    assert!(!s.should_send(11_999));
    assert!(s.should_send(12_000));
    // saturates at the end of time
    let mut late = SyncScheduler::new(1, u64::MAX - 10);
    assert!(late.should_send(u64::MAX));
    assert!(late.should_send(u64::MAX));
}

// ---------------------------------------------------------------------------
// Instrumentation
// ---------------------------------------------------------------------------

#[test]
fn aggregator_evicts_oldest_and_keeps_order() {
    let mut agg = LatencyAggregator::new(3);
    for v in [30u64, 10, 20, 5] {
        agg.insert(v);
    }
    assert_eq!(agg.count(), 3);
    assert_eq!(agg.iter().copied().collect::<Vec<_>>(), vec![10, 20, 5]);
    assert_eq!(agg.min(), Some(5));
    assert_eq!(agg.max(), Some(20));
    assert_eq!(agg.p50(), Some(10));
    agg.clear();
    assert!(agg.is_empty());
    assert_eq!(agg.p99(), None);
}

#[test]
fn aggregator_interpolates_percentiles() {
    let mut agg = LatencyAggregator::default();
    for v in 1..=100u64 {
        agg.insert(v);
    }
    assert_eq!(agg.p50(), Some(51));
    assert_eq!(agg.p95(), Some(95));
    assert_eq!(agg.p99(), Some(99));
    let mut pair = LatencyAggregator::new(10);
    pair.insert(0);
    pair.insert(100);
    assert_eq!(pair.p50(), Some(50));
    assert_eq!(pair.p95(), Some(95));
    assert_eq!(pair.p99(), Some(99));
}

#[test]
fn aggregator_keeps_last_samples_and_percentiles_rise() {
    let mut agg = LatencyAggregator::new(4);
    let xs = [9u64, 1, 7, 3, 8, 2, 6];
    for x in xs {
        agg.insert(x);
    }
    assert_eq!(agg.iter().copied().collect::<Vec<_>>(), vec![3, 8, 2, 6]);
    assert_eq!(agg.min(), Some(2));
    assert_eq!(agg.max(), Some(8));
    let (p50, p95, p99) = (agg.p50().unwrap(), agg.p95().unwrap(), agg.p99().unwrap());
    assert!(2 <= p50 && p50 <= p95 && p95 <= p99 && p99 <= 8);
    assert_eq!((p50, p95, p99), (5, 8, 8));
    assert_eq!(agg.percentile(0), Some(2));
    assert_eq!(agg.percentile(50), Some(5));
    assert_eq!(agg.percentile(100), Some(8));
    assert_eq!(agg.percentile(250), Some(8));
    assert_eq!(agg.percentile(25), Some(3));
    assert_eq!(LatencyAggregator::new(3).percentile(50), None);
}

#[test]
fn aggregator_with_zero_capacity_keeps_everything() {
    let mut agg = LatencyAggregator::new(0);
    for v in 0..5u64 {
        agg.insert(v);
    }
    assert_eq!(agg.count(), 5);
}

#[test]
fn snapshot_default_is_empty() {
    let s = Snapshot::default();
    assert_eq!(s, Snapshot { count: 0, min: None, max: None, p50: None, p95: None, p99: None });
    assert_eq!(Snapshot::from_aggregator(&LatencyAggregator::new(4)), s);
}

#[test]
fn console_line_summarises_snapshot() {
    assert_eq!(console_line(&Snapshot::default()), "[instrument] no samples yet");
    let s = Snapshot { count: 3, min: Some(2), max: Some(1500), p50: Some(40), p95: None, p99: Some(0) };
    assert_eq!(console_line(&s), "[instrument] count=3 min=2 ms p50=40 ms p95=n/a p99=0 ms max=1500 ms");
}

#[test]
fn html_report_page() {
    let s = Snapshot { count: 2, min: Some(5), max: Some(9), p50: Some(7), p95: None, p99: Some(9) };
    assert_eq!(latency_report_html(0, &s, "<svg/>", "<svg/>"), NO_EVENTS_PAGE);
    assert_eq!(NO_EVENTS_PAGE, "<!DOCTYPE html><html><body><h1>No events recorded</h1></body></html>");
    assert!(REPORT_HEAD.starts_with("<!DOCTYPE html>\n<html>\n<head>\n<meta charset=\"UTF-8\">\n"));
    assert!(REPORT_HEAD.ends_with("</style>\n</head>\n<body>\n<div class=\"container\">\n"));
    let page = latency_report_html(2, &s, "<svg>a</svg>", "<svg>b</svg>");
    let expected = String::from(REPORT_HEAD)
        + "<h1>Latency Report</h1>\n<p class=\"subtitle\">Total events: 2</p>\n<div class=\"cards\">\n"
        + "<div class=\"card\"><p class=\"card-label\">Min</p><p class=\"card-value\">5 ms</p></div>\n"
        + "<div class=\"card\"><p class=\"card-label\">P50</p><p class=\"card-value\">7 ms</p></div>\n"
        + "<div class=\"card\"><p class=\"card-label\">P95</p><p class=\"card-value\">- ms</p></div>\n"
        + "<div class=\"card\"><p class=\"card-label\">P99</p><p class=\"card-value\">9 ms</p></div>\n"
        + "<div class=\"card\"><p class=\"card-label\">Max</p><p class=\"card-value\">9 ms</p></div>\n"
        + "</div>\n<h2>Latency Over Time</h2>\n<svg>a</svg><h2>Latency Histogram</h2>\n<svg>b</svg></div>\n</body>\n</html>\n";
    assert_eq!(page, expected);
}

#[test]
fn span_latency_against_peer_clock() {
    let mut clock = PeerClock::new();
    clock.start(1_000_000);
    let mut span = Span::new(EventId(9), "evt", 100);
    assert_eq!(span.event_id(), EventId(9));
    assert_eq!(span.name(), "evt");
    assert_eq!(span.elapsed(40), 0);
    assert_eq!(span.elapsed(160), 60);
    // unsynchronised: no latency
    assert_eq!(span.finish_remote(500, &clock), None);
    assert_eq!(span.finish_local_ms(), None);
    assert_eq!(span.remote_latency_ms(500, &clock), None);
}

#[test]
fn profiler_ids_and_direct_records() {
    let mut p = Profiler::with_capacity(PeerClock::new(), 2);
    let a = p.start("a", 10);
    let b = p.start("b", 20);
    assert_eq!(a.event_id(), EventId(1));
    assert_eq!(b.event_id(), EventId(2));
    p.record_latency(7);
    p.record_latency(3);
    p.record_latency(9);
    let s = p.snapshot();
    assert_eq!(s.count, 2);
    assert_eq!(s.min, Some(3));
    assert_eq!(s.max, Some(9));
    p.clear();
    assert_eq!(p.snapshot().count, 0);
}

struct Recorder(Vec<Snapshot>);

impl Reporter for Recorder {
    fn report(&mut self, snapshot: &Snapshot) {
        self.0.push(*snapshot);
    }
}

#[test]
fn profiler_hands_snapshot_to_reporter() {
    let mut p = Profiler::new(PeerClock::new());
    p.record_latency(4);
    p.record_latency(8);
    let mut r = Recorder(Vec::new());
    p.report(&mut r);
    assert_eq!(r.0, vec![p.snapshot()]);
    assert_eq!(r.0[0].count, 2);
    assert_eq!(r.0[0].max, Some(8));
}

#[test]
fn event_tracker_insert_remove() {
    let mut t: EventTracker<u32, char> = EventTracker::with_capacity(4);
    assert!(t.is_empty());
    t.insert(1, Span::new(EventId(1), "x", 5), 'a');
    t.insert(2, Span::new(EventId(2), "y", 6), 'b');
    t.insert(1, Span::new(EventId(3), "z", 7), 'c');
    assert_eq!(t.len(), 2);
    let (span, meta) = t.remove(&1).unwrap();
    assert_eq!(span.event_id(), EventId(3));
    assert_eq!(meta, 'c');
    assert!(t.remove(&1).is_none());
    t.clear();
    assert_eq!(t.len(), 0);
}

#[test]
fn svg_markup() {
    assert_eq!(
        empty_svg(),
        "<svg width=\"200\" height=\"100\" xmlns=\"http://www.w3.org/2000/svg\">\n<text x=\"100\" y=\"55\" text-anchor=\"middle\" font-size=\"14\" fill=\"#999\">No data</text>\n</svg>"
    );
    assert_eq!(
        svg_open(800, 400),
        "<svg width=\"800\" height=\"400\" viewBox=\"0 0 800 400\" xmlns=\"http://www.w3.org/2000/svg\">"
    );
    let mut s = String::new();
    draw_axes(&mut s, 800, 400, 60);
    assert_eq!(
        s,
        "<line x1=\"60\" y1=\"340\" x2=\"740\" y2=\"340\" stroke=\"#333\" stroke-width=\"2\"/><line x1=\"60\" y1=\"340\" x2=\"60\" y2=\"60\" stroke=\"#333\" stroke-width=\"2\"/>"
    );
    let mut s = String::from("<svg>");
    draw_axis_labels(&mut s, -7, 401, "Event Index", "Value");
    assert_eq!(
        s,
        "<svg><text x=\"-3\" y=\"399\" text-anchor=\"middle\" font-size=\"12\">Event Index</text><text x=\"12\" y=\"200\" text-anchor=\"middle\" font-size=\"12\" transform=\"rotate(-90, 12, 200)\">Value</text>"
    );
}

// ---------------------------------------------------------------------------
// Command line
// ---------------------------------------------------------------------------

#[test]
fn count_parses_keyword_and_numbers() {
    assert_eq!(Count::parse("infinite"), Ok(Count::Infinite));
    assert_eq!(Count::parse("InFiNiTe"), Ok(Count::Infinite));
    assert_eq!(Count::parse("42"), Ok(Count::Finite(42)));
    assert_eq!(Count::parse("+7"), Ok(Count::Finite(7)));
    assert_eq!(Count::parse("007"), Ok(Count::Finite(7)));
    assert!(Count::parse("+").is_err());
    assert!(Count::parse("-0").is_err());
    assert!(Count::parse(" 1").is_err());
    assert_eq!("18446744073709551615".parse::<Count>(), Ok(Count::Finite(u64::MAX)));
}

#[test]
fn count_reports_parse_errors() {
    assert_eq!(Count::parse("abc"), Err("invalid count 'abc': invalid digit found in string".to_string()));
    assert_eq!(Count::parse(""), Err("invalid count '': cannot parse integer from empty string".to_string()));
    assert_eq!(
        Count::parse("18446744073709551616"),
        Err("invalid count '18446744073709551616': number too large to fit in target type".to_string())
    );
    assert_eq!(Count::parse("infinity"), Err("invalid count 'infinity': invalid digit found in string".to_string()));
}
