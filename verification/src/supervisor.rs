//! The backend supervisor.
//!
//! The supervisor owns the lifecycle of the one backend process the shell
//! runs: it tracks the launch as a state machine, publishes the port the
//! backend announced in its handshake, answers port queries from the rest
//! of the shell, and decides what the shutdown path must kill. The OS-level
//! work — spawning, reading the pipe on its own thread, the timed wait,
//! the kill — is done by the shell around the library, which reports each
//! outcome to the supervisor as a plain event.

use vstd::prelude::*;
use crate::handshake::line_views;
use crate::handshake::scan_port;
use crate::handshake::scan_lines;

verus! {

/// Where the supervisor stands in a shell session.
///
/// A session moves `NotStarted -> Launching -> Running -> Terminated`;
/// a failed launch moves `Launching -> Terminated` directly, with no port
/// published. No transition re-enters `Launching` in the same session.
#[derive(Clone, Copy, PartialEq, Eq, Debug)]
pub enum Phase {
    /// No launch has been requested yet.
    NotStarted,
    /// A launch is in flight: the backend may have been spawned, but no
    /// handshake has been received.
    Launching,
    /// The backend is recorded as running and its port is published.
    Running,
    /// The session is over: either the launch failed, or the backend was
    /// shut down.
    Terminated,
}

/// The failures the supervisor surfaces.
///
/// A kill that fails during shutdown is deliberately not here: shutdown is
/// best effort and swallows it, since it runs during teardown with no UI
/// left to report to.
#[derive(Clone, PartialEq, Eq, Debug)]
pub enum SupervisorError {
    /// The backend executable could not be started, or its standard output
    /// could not be captured; carries the full descriptive message.
    SpawnFailure(String),
    /// The backend started but announced no port within the bound.
    HandshakeTimeout,
    /// The port was asked for before any launch completed successfully.
    PublishedPortUnavailable,
    /// A second launch was requested in the same session.
    AlreadyLaunched,
}

impl SupervisorError {
    /// The descriptive message of this error, as the shell shows it.
    pub open spec fn spec_message(self) -> Seq<char> {
        match self {
            SupervisorError::SpawnFailure(m) => m@,
            SupervisorError::HandshakeTimeout => "Backend startup timeout"@,
            SupervisorError::PublishedPortUnavailable => "Backend not started"@,
            SupervisorError::AlreadyLaunched => "Backend already launched"@,
        }
    }

    /// The descriptive message of this error, as the shell shows it.
    pub fn message(&self) -> (r: String)
        ensures
            r@ == self.spec_message(),
    {
        match self {
            SupervisorError::SpawnFailure(m) => m.clone(),
            SupervisorError::HandshakeTimeout => "Backend startup timeout".to_owned(),
            SupervisorError::PublishedPortUnavailable => "Backend not started".to_owned(),
            SupervisorError::AlreadyLaunched => "Backend already launched".to_owned(),
        }
    }
}

/// The shared state of the backend supervision: the recorded process and
/// the published port, together with the phase of the session.
///
/// The process is identified by a plain token the shell chose when it
/// spawned the backend; the shell maps the token back to the real OS
/// handle when the supervisor tells it to kill. The port, once published,
/// is never changed for the rest of the session.
pub struct Supervisor {
    /// Where the session stands.
    pub phase: Phase,
    /// The token of the recorded backend process, if one is recorded.
    pub process: Option<u64>,
    /// The published port, if a launch has succeeded.
    pub port: Option<u16>,
}

impl Supervisor {
    /// The supervisor's invariant: a process is recorded and a port is
    /// published exactly as the phase allows. Before and during a launch
    /// nothing is recorded; while running, both are; after termination no
    /// process is recorded, while the port of a successful session stays
    /// readable.
    pub open spec fn wf(self) -> bool {
        &&& self.phase is NotStarted ==> self.process is None && self.port is None
        &&& self.phase is Launching ==> self.process is None && self.port is None
        &&& self.phase is Running ==> self.process is Some && self.port is Some
        &&& self.phase is Terminated ==> self.process is None
    }

    /// A supervisor for a fresh shell session: nothing launched, nothing
    /// recorded, nothing published.
    pub fn new() -> (s: Supervisor)
        ensures
            s.wf(),
            s.phase is NotStarted,
            s.process is None,
            s.port is None,
    {
        Supervisor { phase: Phase::NotStarted, process: None, port: None }
    }

    /// Opens the launch. The first request of a session moves the
    /// supervisor to `Launching`; any further request is rejected with
    /// [`SupervisorError::AlreadyLaunched`] and changes nothing.
    pub fn begin_launch(&mut self) -> (r: Result<(), SupervisorError>)
        requires
            old(self).wf(),
        ensures
            final(self).wf(),
            old(self).phase is NotStarted ==> r is Ok && final(self).phase is Launching
                && final(self).process is None && final(self).port is None,
            !(old(self).phase is NotStarted) ==> r == Err::<(), SupervisorError>(
                SupervisorError::AlreadyLaunched,
            ) && *final(self) == *old(self),
    {
        match self.phase {
            Phase::NotStarted => {
                self.phase = Phase::Launching;
                Ok(())
            },
            _ => Err(SupervisorError::AlreadyLaunched),
        }
    }

    /// Records that the spawn itself failed: the session is over, nothing
    /// is recorded or published, and the launch surfaces the descriptive
    /// message as a [`SupervisorError::SpawnFailure`].
    pub fn on_spawn_failure(&mut self, message: String) -> (r: SupervisorError)
        requires
            old(self).wf(),
            old(self).phase is Launching,
        ensures
            final(self).wf(),
            final(self).phase is Terminated,
            final(self).process is None,
            final(self).port is None,
            r == SupervisorError::SpawnFailure(message),
    {
        self.phase = Phase::Terminated;
        SupervisorError::SpawnFailure(message)
    }

    /// Records a handshake received within the bound: the process token and
    /// the announced port enter the shared state together, and the launch
    /// returns the port.
    pub fn on_handshake(&mut self, process: u64, port: u16) -> (r: u16)
        requires
            old(self).wf(),
            old(self).phase is Launching,
        ensures
            final(self).wf(),
            final(self).phase is Running,
            final(self).process == Some(process),
            final(self).port == Some(port),
            r == port,
    {
        self.phase = Phase::Running;
        self.process = Some(process);
        self.port = Some(port);
        port
    }

    /// Records that the bound elapsed with no handshake: the session is
    /// over, no port is published, no process is recorded, and the launch
    /// surfaces [`SupervisorError::HandshakeTimeout`]. The spawned backend,
    /// if any, was never recorded; the shell kills it rather than leak an
    /// orphan.
    pub fn on_timeout(&mut self) -> (r: SupervisorError)
        requires
            old(self).wf(),
            old(self).phase is Launching,
        ensures
            final(self).wf(),
            final(self).phase is Terminated,
            final(self).process is None,
            final(self).port is None,
            r == SupervisorError::HandshakeTimeout,
    {
        self.phase = Phase::Terminated;
        SupervisorError::HandshakeTimeout
    }

    /// The published port. A pure read of shared state: it returns the
    /// port exactly when a launch has published one — the same value on
    /// every call — and fails with
    /// [`SupervisorError::PublishedPortUnavailable`] before that.
    pub fn get_port(&self) -> (r: Result<u16, SupervisorError>)
        ensures
            r == (if self.port is Some {
                Result::<u16, SupervisorError>::Ok(self.port->0)
            } else {
                Result::<u16, SupervisorError>::Err(SupervisorError::PublishedPortUnavailable)
            }),
    {
        match self.port {
            Some(p) => Ok(p),
            None => Err(SupervisorError::PublishedPortUnavailable),
        }
    }

    /// Closes the session. If a process is recorded its token is handed
    /// back for the shell to kill and the record is cleared; with nothing
    /// recorded this is a no-op that changes nothing and cannot fail. The
    /// published port of a successful session stays readable.
    pub fn shutdown(&mut self) -> (r: Option<u64>)
        requires
            old(self).wf(),
        ensures
            final(self).wf(),
            r == old(self).process,
            final(self).process is None,
            final(self).port == old(self).port,
            old(self).process is None ==> *final(self) == *old(self),
            old(self).phase is Running ==> final(self).phase is Terminated,
            !(old(self).phase is Running) ==> final(self).phase == old(self).phase,
    {
        match self.phase {
            Phase::Running => {
                self.phase = Phase::Terminated;
                let p = self.process;
                self.process = None;
                p
            },
            _ => None,
        }
    }

    /// Completes a launch from a finished transcript of the backend's
    /// output lines: the launch yields the port of the transcript's first
    /// well-formed handshake line, published together with the process
    /// token, and fails with [`SupervisorError::HandshakeTimeout`] when the
    /// transcript holds none. The transcript is whatever the backend wrote
    /// before the bound elapsed or its stream closed; a transcript without
    /// a handshake fails the same way in either case.
    pub fn launch_from_lines(&mut self, process: u64, lines: &Vec<String>) -> (r: Result<
        u16,
        SupervisorError,
    >)
        requires
            old(self).wf(),
            old(self).phase is Launching,
        ensures
            final(self).wf(),
            scan_port(line_views(lines@)) matches Some(p) ==> r == Result::<
                u16,
                SupervisorError,
            >::Ok(p) && final(self).phase is Running && final(self).port == Some(p)
                && final(self).process == Some(process),
            scan_port(line_views(lines@)) is None ==> r == Result::<u16, SupervisorError>::Err(
                SupervisorError::HandshakeTimeout,
            ) && final(self).phase is Terminated && final(self).port is None
                && final(self).process is None,
    {
        match scan_lines(lines) {
            Some(port) => {
                let p = self.on_handshake(process, port);
                Ok(p)
            },
            None => Err(self.on_timeout()),
        }
    }
}

} // verus!
