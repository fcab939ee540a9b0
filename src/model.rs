//! The records the engine keeps: engines, events and tasks as stored rows,
//! the projections the loops work on, and the rows that submission inserts.
//! Timestamps are microseconds since the Unix epoch, in the database's local
//! wall-clock time.
use vstd::prelude::*;

use crate::status::{EngineStatus, EventStatus, ProcessStatus, TaskStatus};

verus! {

/// The characters of an optional text column.
pub open spec fn opt_text(o: Option<String>) -> Option<Seq<char>> {
    match o {
        Some(s) => Some(s@),
        None => None,
    }
}

/// What travels on the work queue for one task: its identity and script. The
/// task row stays the authority on its state.
#[derive(Clone, Debug)]
pub struct LightTask {
    pub uid: i32,
    pub path: String,
    pub on_failure: Option<String>,
}

/// A copy of an optional text column.
pub fn copy_opt_text(o: &Option<String>) -> (r: Option<String>)
    ensures
        opt_text(r) == opt_text(*o),
{
    match o {
        Some(s) => Some(s.clone()),
        None => None,
    }
}

/// The fields a queue envelope carries.
pub open spec fn light_fields(l: LightTask) -> (i32, Seq<char>, Option<Seq<char>>) {
    (l.uid, l.path@, opt_text(l.on_failure))
}

/// A stored engine instance.
#[derive(Debug)]
pub struct Engine {
    pub uid: i32,
    pub name: String,
    pub ip_address: String,
    pub status: EngineStatus,
    pub stop_signal: bool,
    pub started_at: i64,
    pub stopped_at: Option<i64>,
    pub task_process_status: ProcessStatus,
    pub event_process_status: ProcessStatus,
}

/// The columns a supervisor supplies when it registers an engine.
#[derive(Clone, Debug)]
pub struct NewEngine {
    pub name: String,
    pub ip_address: String,
}

/// A stored event.
#[derive(Debug)]
pub struct Event {
    pub uid: i32,
    pub name: Option<String>,
    pub description: Option<String>,
    pub trigger: String,
    pub status: EventStatus,
    pub stdout: Option<String>,
    pub stderr: Option<String>,
    pub created_at: i64,
    pub triggered_at: Option<i64>,
    pub deleted_at: Option<i64>,
}

/// The columns of an event row that the poller reads.
#[derive(Clone, Debug)]
pub struct LightEvent {
    pub uid: i32,
    pub name: Option<String>,
    pub description: Option<String>,
    pub trigger: String,
    pub status: EventStatus,
}

/// An event row as submission inserts it.
#[derive(Clone, Debug)]
pub struct NewEvent {
    pub name: Option<String>,
    pub description: Option<String>,
    pub trigger: String,
    pub status: EventStatus,
    pub created_at: i64,
}

/// A stored task.
#[derive(Debug)]
pub struct Task {
    pub uid: i32,
    pub event_uid: i32,
    pub name: Option<String>,
    pub description: Option<String>,
    pub path: String,
    pub on_failure: Option<String>,
    pub status: TaskStatus,
    pub stdout: Option<String>,
    pub stderr: Option<String>,
    pub created_at: i64,
    pub updated_at: i64,
    pub completed_at: Option<i64>,
    pub deleted_at: Option<i64>,
}

/// A task row as submission inserts it.
#[derive(Clone, Debug)]
pub struct NewTask {
    pub event_uid: i32,
    pub name: Option<String>,
    pub description: Option<String>,
    pub path: String,
    pub on_failure: Option<String>,
    pub status: TaskStatus,
    pub created_at: i64,
    pub updated_at: i64,
}

impl Task {
    /// The consistency every stored task keeps: it is never updated before it
    /// was created, and it carries a completion time exactly when it
    /// completed, never before its creation.
    pub open spec fn wf(&self) -> bool {
        &&& self.created_at <= self.updated_at
        &&& (self.status is Completed <==> self.completed_at is Some)
        &&& (self.completed_at matches Some(c) ==> self.created_at <= c)
    }

    /// The fields of the task's queue envelope.
    pub open spec fn spec_light_fields(&self) -> (i32, Seq<char>, Option<Seq<char>>) {
        (self.uid, self.path@, opt_text(self.on_failure))
    }

    /// The task's queue envelope.
    pub fn light(&self) -> (r: LightTask)
        ensures
            light_fields(r) == self.spec_light_fields(),
    {
        LightTask { uid: self.uid, path: self.path.clone(), on_failure: copy_opt_text(&self.on_failure) }
    }
}

} // verus!
