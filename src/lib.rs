//! Host-side logic of a small script runtime: the scheduler that runs timers
//! and fetches for a single-threaded engine, the dispatch of their
//! completions, script-side timer bookkeeping, and the module cache.

pub mod bridge;
pub mod cli;
pub mod dispatch;
pub mod modules;
pub mod pipeline;
pub mod resolve;
pub mod runtime;
pub mod scheduler;
pub mod timers;
