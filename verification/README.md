# Task dispatcher

A verified model of a small operating-system-style task dispatcher: a
producer creates IO-bound and CPU-bound tasks, a manager keeps them in ready
queues and hands them to a bounded pool of workers, and the CPU share reserved
by running tasks may never pass 100%.

- `src/task.rs` — task kinds, their CPU shares, tasks, policies, completion reports.
- `src/rng.rs` — the linear congruential generator behind the workload.
- `src/workload.rs` — the producer's task numbering and kind draws, monitor totals.
- `src/schedule.rs` — the FIFO and optimized choices and a dispatch round, with
  a model (`dispatch_outcome`) that the contracts speak of.
- `src/dispatch_laws.rs` — what every dispatch round keeps: the CPU limit,
  queue order, accounting, and when a round may stop.
- `src/manager.rs` — the manager's state between two rounds of its loop.
- `app/main.rs` — threads, channels, clocks, averages and the report.
