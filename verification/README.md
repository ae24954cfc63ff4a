# ghostpages

Core library of a memory-tiering system, written in Verus: the code in `src/`
is verified against its contracts, apart from the thin trusted wrappers around
std and outside crates (blake3, hex, zstd, tokio), each marked as such.

- `types`, `state`, `state_ownership`: content-addressed chunk ids, tiers,
  the chunk lifecycle state machine and the mutation audit log.
- `transfer`, `dma_pipeline`, `io_abstraction`, `hardware`: transfer jobs,
  the staged DMA pipeline and the issue/complete I/O scheduler.
- `events`, `io_events`, `trace`, `emitter`, `event_multiplexer`,
  `invariant_registry`, `tracing_bridge`: the event taxonomy, sequence
  stamping and ordering checks, the runtime I/O invariants, and the log level
  and message of each kind of event.
- `hotness_*`: hotness samples, summaries, rolling history and the integer
  measurements behind confidence scores.
- `compress`, `cli`, `workload`, `time`, `clock`, `error`: zstd and
  pass-through compression, command-line parsing and formatting, workload
  definitions and their classification by name, time sources and error
  messages.

`app/` holds the parts that are not verified: the command-line program, the
asynchronous event plumbing, logging, serialisation and floating-point
scoring. `tests/` exercises the library.

Of the benchmarking tools, only the workload definitions, their
classification by name and the snapshot schedule are here. Scenario
generation, policy comparison, experiments, reports and the leaderboard
score policies in floating point through evaluator and Linux-policy crates
that are not part of this project, so they are absent.
