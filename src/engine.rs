//! The engine row's lifecycle: registration by the supervisor, the two
//! worker processes reporting in and out, and the cooperative stop request.
use vstd::prelude::*;

use crate::model::{Engine, NewEngine};
use crate::status::{EngineStatus, ProcessStatus};

verus! {

/// The two worker processes an engine runs.
#[derive(Clone, Copy, Debug, PartialEq, Eq, Structural)]
pub enum ProcessKind {
    /// Polls events and runs their triggers.
    Event,
    /// Pops task envelopes and runs them on the worker pool.
    Task,
}

impl ProcessKind {
    /// The subcommand that runs this process.
    pub fn subcommand(&self) -> (r: &'static str)
        ensures
            r@ == (match self {
                ProcessKind::Event => "start-event-process"@,
                ProcessKind::Task => "start-task-process"@,
            }),
    {
        match self {
            ProcessKind::Event => "start-event-process",
            ProcessKind::Task => "start-task-process",
        }
    }

    /// Where the process's standard output goes.
    pub fn stdout_log(&self) -> (r: &'static str)
        ensures
            r@ == (match self {
                ProcessKind::Event => "./logs/event_stdout.txt"@,
                ProcessKind::Task => "./logs/task_stdout.txt"@,
            }),
    {
        match self {
            ProcessKind::Event => "./logs/event_stdout.txt",
            ProcessKind::Task => "./logs/task_stdout.txt",
        }
    }

    /// Where the process's standard error goes.
    pub fn stderr_log(&self) -> (r: &'static str)
        ensures
            r@ == (match self {
                ProcessKind::Event => "./logs/event_stderr.txt"@,
                ProcessKind::Task => "./logs/task_stderr.txt"@,
            }),
    {
        match self {
            ProcessKind::Event => "./logs/event_stderr.txt",
            ProcessKind::Task => "./logs/task_stderr.txt",
        }
    }
}

/// The engine name used when none is configured.
pub const DEFAULT_ENGINE_NAME: &'static str = "workflow-engine";

/// The name a new engine registers under: the configured one, else the
/// default.
pub fn engine_name(configured: Option<String>) -> (r: String)
    ensures
        r@ == (match configured {
            Some(n) => n@,
            None => DEFAULT_ENGINE_NAME@,
        }),
{
    match configured {
        Some(n) => n,
        None => DEFAULT_ENGINE_NAME.to_owned(),
    }
}

/// A network interface as the host reports it, with its IPv4 addresses.
#[derive(Clone, Debug)]
pub struct InterfaceInfo {
    pub is_up: bool,
    pub is_loopback: bool,
    pub ipv4: Vec<String>,
}

/// An interface an engine can be reached on.
pub open spec fn usable(i: InterfaceInfo) -> bool {
    i.is_up && !i.is_loopback && i.ipv4@.len() > 0
}

/// Why an engine cannot be registered.
#[derive(Clone, Copy, Debug, PartialEq, Eq, Structural)]
pub enum EngineSetupError {
    /// No interface is up, off loopback, and holding an IPv4 address.
    NoNetworkInterface,
}

/// The address an engine registers with: the first IPv4 address of the
/// first interface that is up, not loopback, and has one.
pub fn engine_address(interfaces: &Vec<InterfaceInfo>) -> (r: Result<String, EngineSetupError>)
    ensures
        match r {
            Ok(a) => exists|i: int|
                0 <= i < interfaces@.len() && usable(interfaces@[i]) && (forall|j: int|
                    0 <= j < i ==> !usable(#[trigger] interfaces@[j])) && a@
                    == interfaces@[i].ipv4@[0]@,
            Err(e) => e == EngineSetupError::NoNetworkInterface && forall|j: int|
                0 <= j < interfaces@.len() ==> !usable(#[trigger] interfaces@[j]),
        },
{
    let mut i: usize = 0;
    while i < interfaces.len()
        invariant
            i <= interfaces@.len(),
            forall|j: int| 0 <= j < i ==> !usable(#[trigger] interfaces@[j]),
        decreases interfaces@.len() - i,
    {
        let it = &interfaces[i];
        if it.is_up && !it.is_loopback && it.ipv4.len() > 0 {
            return Ok(it.ipv4[0].clone());
        }
        i = i + 1;
    }
    Err(EngineSetupError::NoNetworkInterface)
}

/// The row after a stop request.
pub open spec fn with_stop_requested(e: Engine) -> Engine {
    Engine { stop_signal: true, ..e }
}

/// The row after process `kind` reports that its loop has ended at `now`.
/// The task process also closes the engine.
pub open spec fn after_process_stopped(e: Engine, kind: ProcessKind, now: i64) -> Engine {
    match kind {
        ProcessKind::Event => Engine { event_process_status: ProcessStatus::Stopped, ..e },
        ProcessKind::Task => Engine {
            task_process_status: ProcessStatus::Stopped,
            status: EngineStatus::Stopped,
            stopped_at: Some(now),
            ..e
        },
    }
}

impl Engine {
    /// The row a supervisor inserts: starting, not asked to stop, neither
    /// process running yet.
    pub fn register(uid: i32, entry: NewEngine, now: i64) -> (r: Engine)
        ensures
            r.uid == uid,
            r.name == entry.name,
            r.ip_address == entry.ip_address,
            r.status == EngineStatus::Starting,
            !r.stop_signal,
            r.started_at == now,
            r.stopped_at is None,
            r.task_process_status == ProcessStatus::Stopped,
            r.event_process_status == ProcessStatus::Stopped,
    {
        Engine {
            uid,
            name: entry.name,
            ip_address: entry.ip_address,
            status: EngineStatus::Starting,
            stop_signal: false,
            started_at: now,
            stopped_at: None,
            task_process_status: ProcessStatus::Stopped,
            event_process_status: ProcessStatus::Stopped,
        }
    }

    /// The supervisor's last step: a starting engine is now running. An
    /// engine that already stopped stays stopped.
    pub fn mark_running(&mut self)
        ensures
            *final(self) == (if old(self).status is Starting {
                Engine { status: EngineStatus::Running, ..*old(self) }
            } else {
                *old(self)
            }),
    {
        if matches!(self.status, EngineStatus::Starting) {
            self.status = EngineStatus::Running;
        }
    }

    /// Asks the engine's loops to stop at their next check.
    pub fn request_stop(&mut self)
        ensures
            *final(self) == with_stop_requested(*old(self)),
    {
        self.stop_signal = true;
    }

    /// Process `kind` reports that its loop is running.
    pub fn process_started(&mut self, kind: ProcessKind)
        ensures
            *final(self) == (match kind {
                ProcessKind::Event => Engine {
                    event_process_status: ProcessStatus::Running,
                    ..*old(self)
                },
                ProcessKind::Task => Engine {
                    task_process_status: ProcessStatus::Running,
                    ..*old(self)
                },
            }),
    {
        match kind {
            ProcessKind::Event => self.event_process_status = ProcessStatus::Running,
            ProcessKind::Task => self.task_process_status = ProcessStatus::Running,
        }
    }

    /// Process `kind` reports at `now` that its loop has ended.
    pub fn process_stopped(&mut self, kind: ProcessKind, now: i64)
        ensures
            *final(self) == after_process_stopped(*old(self), kind, now),
    {
        match kind {
            ProcessKind::Event => self.event_process_status = ProcessStatus::Stopped,
            ProcessKind::Task => {
                self.task_process_status = ProcessStatus::Stopped;
                self.status = EngineStatus::Stopped;
                self.stopped_at = Some(now);
            },
        }
    }
}

/// Asking an engine to stop twice leaves it as asking once does.
pub proof fn lemma_stop_request_idempotent(e: Engine)
    ensures
        with_stop_requested(with_stop_requested(e)) == with_stop_requested(e),
{
}

/// Once both processes have ended, in either order, the engine is stopped
/// and so are both of its processes.
pub proof fn lemma_stopped_after_both_processes_end(e: Engine, first: ProcessKind, t1: i64, t2: i64)
    ensures
        ({
            let second = match first {
                ProcessKind::Event => ProcessKind::Task,
                ProcessKind::Task => ProcessKind::Event,
            };
            let done = after_process_stopped(after_process_stopped(e, first, t1), second, t2);
            &&& done.status == EngineStatus::Stopped
            &&& done.task_process_status == ProcessStatus::Stopped
            &&& done.event_process_status == ProcessStatus::Stopped
        }),
{
}

/// A stop request is never withdrawn by the engine's own transitions.
pub proof fn lemma_stop_signal_sticks(e: Engine, kind: ProcessKind, now: i64)
    requires
        e.stop_signal,
    ensures
        after_process_stopped(e, kind, now).stop_signal,
        with_stop_requested(e).stop_signal,
{
}

} // verus!
