# impatience

Measuring event-to-event latency across networked peers, with automatic
clock synchronisation over UDP, written in Verus.

- `src/` is the verified library:
  - `timesync`: rollover-safe fixed-width counters, the windowed-minimum
    tracker and the time synchroniser that estimates one-way delay and clock
    offset from 24-bit datagram timestamps;
  - `clocks`: the synchronised clock, the peer-aware clock that converts
    between local and remote elapsed time, and the status-line formatting;
  - `net`: packet types, the probe and sync packet traits, the StartClock
    handshake and the heartbeat scheduler;
  - `instrumentation`: spans, the sorted latency window with its
    percentiles, the profiler, snapshots, in-flight event tracking and SVG
    markup;
  - `cli`: the ping count argument.
- `app/` holds the command-line programs around it (`sync-test`,
  `latency-demo`): sockets, threads, terminal input, the rkyv wire encoding,
  the floating-point charts and the JSON and HTML reports.
- `tests/` exercises the library.
