# salvia (verified core)

Incremental computing framework for async Rust: *queries* cache their values and
recalculate only when the *inputs* or other queries they read change.

The `salvia` library (`src/`) is verified with Verus. It holds:

* `time` — local and global instants, durations and their arithmetic;
* `node` — input selections (bit sets over `bitvec`), dependency information and its join;
* `node::query` — query cache decisions: input change detection, combination of upstream
  validation answers, cache status, the update routine as a step function, validation answers;
* `node::input` — input cache: queued values, actualization, local versioning;
* `runtime::clock` — phase tokens, clock phase transitions, input indexing, permit accounting;
* `codegen` — which signatures and parameters a `#[query]` function may have.

`app/` is the async shell around it: tokio tasks for nodes and the clock, channels,
runtime and contexts, executors, and the code generation of the `#[query]` attribute and the
`InputAccess` derive. Every decision those tasks take is a call into the library.
