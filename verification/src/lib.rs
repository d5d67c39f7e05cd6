//! A minimal execution-context core for an async runtime: a scoped
//! register that records which runtime handle is currently active on a
//! thread, and a statically dispatched facade that routes task spawning
//! to one of a closed set of scheduler kinds.

pub mod context;
pub mod handle;
pub mod spawner;
