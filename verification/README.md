# minutes

Core logic of the Minutes meeting recorder, verified with Verus.

- `src/audio/vad.rs` — voice-activity gating: voiced frames are buffered,
  a 200 ms silence pad is kept between utterance parts, a chunk is emitted
  after 500 ms of trailing silence or at the 30 s cap.
- `src/audio/chunker.rs` — splits captured samples into VAD frames and
  stamps each emitted chunk with its session time.
- `src/audio/accumulator.rs` — collects speech for the fast path (2 s) and
  the slow path (10 s), with the chunk map that ties clip offsets back to the
  session timeline.
- `src/audio/wav.rs` — 16-bit PCM WAV encoding (through `hound`).
- `src/commands/pipeline.rs` — the decisions of a recording session: when the
  fast and slow paths fire, how the slow path clears and covers the fast one,
  and how slow-path timestamps map to session time.
- `src/commands`, `src/db`, `src/events.rs`, `src/text.rs` — health probing,
  device listing, speaker lookups, query parameters, event payloads and word
  counting.

`app/` holds the parts that run against the outside world (audio capture,
SQLite, HTTP, the desktop shell, the embedding and Silero models) and call
into the library.
