//! A harness for measuring how long a task runtime takes to spawn and await
//! nested tasks.
//!
//! The crate holds the arithmetic and the decisions of the harness: elapsed
//! times and their mean, the round-by-round protocol of the benchmarked
//! workload, and the report lines. Spawning, awaiting and reading the clock
//! are left to the caller, which feeds the outcomes back in.

pub mod duration;
pub mod report;
pub mod runner;
pub mod sampler;
pub mod task;
pub mod timer;
pub mod workload;
