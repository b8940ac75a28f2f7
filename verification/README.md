# rust_thread_system

A thread system — worker pools, job queues, backpressure, retries,
cancellation, monitoring, logging decisions and job persistence rules —
whose logic is written in Verus and proved against its contracts.

Layout:

- `src/` — the verified library. Every public function states in its
  contract what it returns or changes; proof functions named `lemma_*`
  state the laws that relate several operations (cancellation reaches every
  descendant and is idempotent, a priority queue serves the most urgent job
  first and first-come-first-served within a priority, statistics keep their
  extremes, and so on). Calls into outside crates (the clock, `num_cpus`,
  `chrono`, the `dashmap` maps of the metrics) sit behind small trusted wrappers whose doc comments say what is
  assumed of them.
- `app/` — ordinary Rust around the library: the queues built on
  `crossbeam` and `parking_lot`, worker threads, the thread pool runtime,
  shared cancellation tokens, the logger's threads and files, persistence
  on disk with `serde_json`, and the floating-point rates.
- `tests/` — tests of the library.

Log entries made by the library are stamped in UTC; the clock is read in
whole milliseconds for elapsed times and in seconds and nanoseconds for
timestamps.
