use vstd::prelude::*;

verus! {

/// The three transport schemes an agent endpoint can use.
#[derive(Clone, Copy, Debug, PartialEq, Eq, Structural)]
pub enum TransportKind {
    Vsock,
    Unix,
    Tcp,
}

/// Everything that can go wrong in the agent lifecycle or in address
/// construction.  Each variant carries enough context to diagnose the
/// failure without re-running: the pid, the path, the transport kind or
/// the OS detail involved.
#[derive(Clone, Debug)]
pub enum AgentError {
    /// The OS refused to create the subprocess, or created one whose id
    /// could not be observed; `detail` carries the OS error message or the
    /// exit status of the untrackable child.
    SpawnFailure { detail: String },
    /// Sending the termination signal to `pid` failed for a reason other
    /// than the process being already gone.
    SignalFailure { pid: u32, errno: i32 },
    /// Removing the stale artifact at `path` while building an address of
    /// kind `kind` failed for a reason other than the path not existing.
    FilesystemCleanupFailure { kind: TransportKind, path: String, errno: i32 },
    /// Hostname resolution produced no usable address for `host`.
    ResolutionFailure { host: String },
}

} // verus!
