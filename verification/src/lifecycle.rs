//! The agent lifecycle state machine.
//!
//! An [`Agent`] owns its configuration and a two-state lifecycle: off, or on
//! with the process id recorded at spawn time.  Spawning the subprocess is
//! asynchronous work that an embedding runtime performs: the agent hands it
//! the exact command to run ([`Agent::start_command`]) and applies whatever
//! the spawn came to ([`Agent::apply_spawn_outcome`]).  Stopping delivers a
//! forceful termination signal directly and resets the state to off whenever
//! the process was signalled or found already gone.
//!
//! The lifecycle is not internally synchronized: a caller that may reach one
//! agent from several execution contexts must serialize all calls that touch
//! it, since a stop reads the pid that a racing start mutates.

use vstd::prelude::*;

use crate::backends::{build_backends_path, search_path, split_commas};
use crate::errors::AgentError;

verus! {

/// The lifecycle state: off, or on with the pid recorded when the
/// subprocess was spawned.  A state `ON { pid }` means that `pid` was, at
/// some past point, obtained from the OS as the successful spawn result;
/// nothing checks that the process is still alive.
#[allow(non_camel_case_types)]
#[derive(Clone, Copy, Debug, PartialEq, Eq, Structural)]
pub enum State {
    OFF,
    ON { pid: u32 },
}

/// The exact command an embedding runtime must run to start the agent:
/// the program, its argument list, and the environment entries to set
/// beyond the inherited environment.
pub struct SpawnCommand {
    pub program: String,
    pub args: Vec<String>,
    pub env: Vec<(String, String)>,
}

/// What a spawn attempt came to: a tracked process, a process whose id the
/// platform could not report (with the exit status the synchronous wait
/// observed), or an OS-level refusal.
pub enum SpawnOutcome {
    Spawned { pid: u32 },
    NoPid { status: String },
    Failed { message: String },
}

/// What became of delivering the termination signal.
#[derive(Clone, Copy, Debug, PartialEq, Eq, Structural)]
pub enum KillOutcome {
    /// The signal was delivered.
    Delivered,
    /// No process with that id exists: it already exited by other means.
    NoSuchProcess,
    /// Delivery failed with the given OS error number.
    Failed { errno: i32 },
}

/// Whether a lifecycle state records only a pid that fits the OS pid type.
/// pid_t is an i32: a larger value would wrap negative in the signal call
/// and address a process group instead of one process, so every path that
/// records or signals a pid keeps this machine limit.
pub open spec fn pid_fits(s: State) -> bool {
    s matches State::ON { pid } ==> pid <= 0x7fff_ffff
}

/// Relies on nix::sys::signal::kill: delivers SIGKILL to the process with
/// the given id.  ESRCH is handed back apart from other errors, since a
/// process already gone is the clean outcome of a stop.  What comes back
/// depends on the process table, so nothing is promised of it.  The pid
/// must fit the OS pid type, so that the cast below cannot wrap into a
/// process-group id.
#[verifier::external_body]
fn send_sigkill(pid: u32) -> (out: KillOutcome)
    requires
        pid <= 0x7fff_ffff,
{
    match nix::sys::signal::kill(
        nix::unistd::Pid::from_raw(pid as i32),
        nix::sys::signal::Signal::SIGKILL,
    ) {
        Ok(()) => KillOutcome::Delivered,
        Err(nix::errno::Errno::ESRCH) => KillOutcome::NoSuchProcess,
        Err(e) => KillOutcome::Failed { errno: e as i32 },
    }
}

/// Whether a stop succeeds, given the state it starts from and what the
/// signal delivery would come to: from OFF a stop is a successful no-op
/// whatever the outcome would have been; from ON it succeeds unless
/// delivery failed for a reason other than the process being gone.
pub open spec fn stop_succeeds(s: State, out: KillOutcome) -> bool {
    match s {
        State::OFF => true,
        State::ON { .. } => !(out is Failed),
    }
}

/// The state a stop leaves behind: OFF whenever the stop succeeds, and the
/// old state when delivery failed.
pub open spec fn stop_next_state(s: State, out: KillOutcome) -> State {
    match s {
        State::OFF => State::OFF,
        State::ON { .. } => if out is Failed {
            s
        } else {
            State::OFF
        },
    }
}

/// The agent: its configuration and its lifecycle state.  All configuration
/// fields are opaque strings; only the backend list has internal structure
/// (it is split on `,` at start time).
#[derive(Debug, Clone)]
pub struct Agent {
    pub agent_path: String,
    pub endpoint: String,
    pub debug: String,
    pub backends: String,
    pub backends_library: String,
    pub state: State,
}

/// Whether two agent values carry the same configuration.
pub open spec fn same_config(a: Agent, b: Agent) -> bool {
    &&& a.agent_path == b.agent_path
    &&& a.endpoint == b.endpoint
    &&& a.debug == b.debug
    &&& a.backends == b.backends
    &&& a.backends_library == b.backends_library
}

impl Agent {
    /// Builds an agent in state OFF with the given configuration.  Stores
    /// the strings as they stand; nothing is validated.
    pub fn create(
        agent_path: String,
        endpoint: String,
        debug: String,
        backends: String,
        backends_library: String,
    ) -> (a: Agent)
        ensures
            a.agent_path == agent_path,
            a.endpoint == endpoint,
            a.debug == debug,
            a.backends == backends,
            a.backends_library == backends_library,
            a.state is OFF,
    {
        Agent { agent_path, endpoint, debug, backends, backends_library, state: State::OFF }
    }

    /// Builds a placeholder agent: every configuration field empty, state
    /// OFF.  For the consuming environment that needs an agent before the
    /// real configuration is known.
    pub fn create_empty() -> (a: Agent)
        ensures
            a.agent_path@ == Seq::<char>::empty(),
            a.endpoint@ == Seq::<char>::empty(),
            a.debug@ == Seq::<char>::empty(),
            a.backends@ == Seq::<char>::empty(),
            a.backends_library@ == Seq::<char>::empty(),
            a.state is OFF,
    {
        Agent {
            agent_path: String::new(),
            endpoint: String::new(),
            debug: String::new(),
            backends: String::new(),
            backends_library: String::new(),
            state: State::OFF,
        }
    }

    /// Unconditionally overwrites all five configuration fields; always
    /// succeeds (the `Result` exists for interface uniformity).  The
    /// lifecycle state is untouched: patching an agent that is ON silently
    /// desynchronizes the stored configuration from the live process, so
    /// callers patch before they start.
    pub fn patch(
        &mut self,
        agent_path: String,
        endpoint: String,
        debug: String,
        backends: String,
        backends_library: String,
    ) -> (r: Result<(), AgentError>)
        ensures
            r is Ok,
            final(self).agent_path == agent_path,
            final(self).endpoint == endpoint,
            final(self).debug == debug,
            final(self).backends == backends,
            final(self).backends_library == backends_library,
            final(self).state == old(self).state,
    {
        self.agent_path = agent_path;
        self.endpoint = endpoint;
        self.debug = debug;
        self.backends = backends;
        self.backends_library = backends_library;
        Ok(())
    }

    /// The exact command that starts this agent: the configured program,
    /// the argument list `-a <endpoint>`, and the two environment entries
    /// `VACCEL_DEBUG_LEVEL=<debug>` and `VACCEL_BACKENDS=<search path>`,
    /// where the search path joins one `libvaccel-<backend>.so` entry per
    /// configured backend under the backend library directory, in input
    /// order, with no trailing separator.
    pub fn start_command(&self) -> (cmd: SpawnCommand)
        ensures
            cmd.program@ == self.agent_path@,
            cmd.args@.len() == 2,
            cmd.args@[0]@ == "-a"@,
            cmd.args@[1]@ == self.endpoint@,
            cmd.env@.len() == 2,
            cmd.env@[0].0@ == "VACCEL_DEBUG_LEVEL"@,
            cmd.env@[0].1@ == self.debug@,
            cmd.env@[1].0@ == "VACCEL_BACKENDS"@,
            cmd.env@[1].1@ == search_path(self.backends_library@, split_commas(self.backends@)),
    {
        let program = self.agent_path.clone();
        let mut args: Vec<String> = Vec::new();
        args.push("-a".to_owned());
        args.push(self.endpoint.clone());
        let path = build_backends_path(self.backends_library.as_str(), self.backends.as_str());
        let mut env: Vec<(String, String)> = Vec::new();
        env.push(("VACCEL_DEBUG_LEVEL".to_owned(), self.debug.clone()));
        env.push(("VACCEL_BACKENDS".to_owned(), path));
        SpawnCommand { program, args, env }
    }

    /// Applies what a spawn attempt came to.  A tracked process turns the
    /// state ON with its pid; every other outcome is a spawn failure that
    /// carries the OS detail and leaves the whole agent unchanged.  A
    /// recorded pid must fit the OS pid type (a machine limit): a caller
    /// whose platform reported a larger id treats the spawn as untrackable.
    pub fn apply_spawn_outcome(&mut self, outcome: SpawnOutcome) -> (r: Result<(), AgentError>)
        requires
            outcome matches SpawnOutcome::Spawned { pid } ==> pid <= 0x7fff_ffff,
        ensures
            pid_fits(old(self).state) ==> pid_fits(final(self).state),
            same_config(*old(self), *final(self)),
            match outcome {
                SpawnOutcome::Spawned { pid } => r is Ok && final(self).state == (State::ON {
                    pid,
                }),
                SpawnOutcome::NoPid { status } => final(self).state == old(self).state && (
                r matches Err(AgentError::SpawnFailure { detail }) && detail@ == status@),
                SpawnOutcome::Failed { message } => final(self).state == old(self).state && (
                r matches Err(AgentError::SpawnFailure { detail }) && detail@ == message@),
            },
    {
        match outcome {
            SpawnOutcome::Spawned { pid } => {
                self.state = State::ON { pid };
                Ok(())
            },
            SpawnOutcome::NoPid { status } => Err(AgentError::SpawnFailure { detail: status }),
            SpawnOutcome::Failed { message } => Err(AgentError::SpawnFailure { detail: message }),
        }
    }

    /// Decides a stop after the signal was sent to `pid`: a delivered
    /// signal and a process already gone both count as success and reset
    /// the state to OFF; any other delivery failure is surfaced with the
    /// pid and the OS error attached, and changes nothing.
    pub fn apply_stop_outcome(&mut self, pid: u32, out: KillOutcome) -> (r: Result<(), AgentError>)
        requires
            old(self).state == (State::ON { pid }),
            pid <= 0x7fff_ffff,
        ensures
            pid_fits(final(self).state),
            same_config(*old(self), *final(self)),
            final(self).state == stop_next_state(old(self).state, out),
            (r is Ok) == stop_succeeds(old(self).state, out),
            match r {
                Ok(_) => true,
                Err(e) => (e matches AgentError::SignalFailure { pid: p, errno } && p == pid
                    && out == (KillOutcome::Failed { errno })),
            },
    {
        match out {
            KillOutcome::Delivered => {
                self.state = State::OFF;
                Ok(())
            },
            KillOutcome::NoSuchProcess => {
                self.state = State::OFF;
                Ok(())
            },
            KillOutcome::Failed { errno } => Err(AgentError::SignalFailure { pid, errno }),
        }
    }

    /// Stops the agent.  From OFF this is a successful no-op that touches
    /// nothing and signals nothing.  From ON it delivers SIGKILL to the
    /// recorded pid: a delivered signal and a process already gone both
    /// count as success and reset the state to OFF; any other delivery
    /// failure is surfaced with the pid and the OS error attached, and
    /// changes nothing.  Any recorded pid must fit the OS pid type (a
    /// machine limit the whole lifecycle keeps), so that signalling it
    /// cannot address a process group.
    pub fn stop(&mut self) -> (r: Result<(), AgentError>)
        requires
            pid_fits(old(self).state),
        ensures
            pid_fits(final(self).state),
            same_config(*old(self), *final(self)),
            old(self).state is OFF ==> r is Ok && *final(self) == *old(self),
            r is Ok ==> final(self).state is OFF,
            match r {
                Ok(_) => true,
                Err(e) => *final(self) == *old(self) && (e matches AgentError::SignalFailure {
                    pid,
                    errno,
                } && old(self).state == (State::ON { pid })),
            },
    {
        let pid_opt = match self.state {
            State::OFF => None,
            State::ON { pid } => Some(pid),
        };
        match pid_opt {
            None => Ok(()),
            Some(pid) => {
                let out = send_sigkill(pid);
                self.apply_stop_outcome(pid, out)
            },
        }
    }
}

/// Law: a freshly created or freshly patched agent is OFF, and from OFF a
/// stop succeeds and changes nothing, whatever any signal delivery would
/// have come to: no signalling takes place.
pub proof fn lemma_stop_on_off(s: State, out: KillOutcome)
    requires
        s is OFF,
    ensures
        stop_succeeds(s, out),
        stop_next_state(s, out) == s,
{
}

/// Law: stopping twice in a row after one successful start is idempotent.
/// A stop that succeeded always leaves the agent OFF, so the second stop
/// succeeds as a no-op and leaves the state exactly where the first one
/// left it, whatever either signal delivery came to.
pub proof fn lemma_stop_idempotent(s: State, out1: KillOutcome, out2: KillOutcome)
    requires
        stop_succeeds(s, out1),
    ensures
        stop_next_state(s, out1) is OFF,
        stop_succeeds(stop_next_state(s, out1), out2),
        stop_next_state(stop_next_state(s, out1), out2) == stop_next_state(s, out1),
{
}

} // verus!
