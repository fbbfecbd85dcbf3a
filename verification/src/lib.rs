//! Lifecycle management for a single helper ("agent") subprocess, together
//! with construction of the vsock, unix and tcp transport addresses that the
//! agent and its clients use to rendezvous.
//!
//! The lifecycle itself is a two-state machine (off, or on with a recorded
//! process id).  Spawning the subprocess is asynchronous work that an
//! embedding runtime performs; this crate computes the exact command to run
//! and applies the outcome of the spawn to the state machine.  Signalling a
//! running agent and clearing stale socket artifacts are plain system calls
//! and are made here directly.

pub mod address;
pub mod backends;
pub mod errors;
pub mod lifecycle;

pub use address::{construct_tcp, construct_unix, construct_vsock};
pub use errors::{AgentError, TransportKind};
pub use lifecycle::{Agent, KillOutcome, SpawnCommand, SpawnOutcome, State};
