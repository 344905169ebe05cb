# immortal-core

Verified core of the Immortal process supervisor: every reusable supervision rule
as executable Rust whose behaviour is stated in `requires` and `ensures` clauses
and proved by Verus.

- `src/config` turns decoded service definitions into one validated model, resolves
  paths, loads environment directories, and writes canonical documents back.
- `src/control` is the bounded binary control protocol: frames, typed status,
  request decisions, socket and peer policy.
- `src/supervisor` is the generation state machine and restart policy.
- `src/executor` is the single-owner event loop as a pure step function: it takes
  broker events, timers, and control commands, and queues work.
- `src/logging` plans log routes, tracks pipeline health, orders shutdown, and
  decides rotation and retention.
- `src/pid_file.rs`, `src/platform`, `src/build_info.rs`, and `src/exit.rs` hold the
  smaller rules.

Laws which span several functions are public proof functions, gathered in
`src/executor/laws.rs` and `src/executor/answers.rs` and at the end of the module
they concern elsewhere.

`app/` is the operating-system side: YAML, files, sockets, clocks, and the loop
which carries queued work out. `tests/` exercises the library from outside.
