# music_stream

The core of a music stream that sends Opus over RTP or hands Opus frames to a
consumer. One stream has a current and a next track, one long-lived output and
one packet session; playlist policy stays with its owner.

- `src/` is the verified library: the actor of a stream (`session`), its
  registry (`engine`), sources and settings (`model`, `headers`), the encoded
  queue, the output state machines, startup deadlines, admission and
  orchestration (`runtime`), frame assembly and codec bookkeeping (`audio`), and
  network quality (`quality`). Contracts are stated over spec functions next to
  the code; `session::laws` and the public proof functions of the other modules
  state what holds over whole runs.
- `app/` is the program around it: sockets, timers, threads, Symphonia, Rubato,
  libopus and sample arithmetic. Packet formats and source fetching come in
  through the traits of `app/layers.rs`.
- `tests/` runs the library on concrete values.

Instants and durations are counts of nanoseconds; samples are of any copyable
type and are never computed with in `src/`.
