//! Reports the synchronization state of many independently-hosted git
//! repositories in one pass.
//!
//! The crate holds the computation core: the repository status model, a
//! single-flight memoizing cache that deduplicates network reachability
//! probes, the per-repository status engine (a step function from observed
//! events to the next action), and the order-restoring fan-in used after
//! parallel execution. Filesystem traversal, command-line handling and
//! rendering live outside the library and feed it plain values.

pub mod aggregate;
pub mod cache;
pub mod engine;
pub mod net;
pub mod paths;
pub mod refname;
pub mod render;
pub mod status;

