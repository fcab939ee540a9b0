//! What a task worker does to the task row it holds: claim it, mark it
//! running, and record how its script ended.
use vstd::prelude::*;

use crate::envelope::{decode_light_task, parse_envelope};
use crate::model::{light_fields, opt_text, LightTask, Task};
use crate::script::ScriptOutcome;
use crate::status::TaskStatus;

verus! {

/// A reading of the clock, never earlier than `floor`.
pub open spec fn not_before(now: i64, floor: i64) -> i64 {
    if now < floor {
        floor
    } else {
        now
    }
}

pub fn clamp_not_before(now: i64, floor: i64) -> (r: i64)
    ensures
        r == not_before(now, floor),
{
    if now < floor {
        floor
    } else {
        now
    }
}

/// The columns a worker never touches.
pub open spec fn same_identity(a: Task, b: Task) -> bool {
    &&& a.uid == b.uid
    &&& a.event_uid == b.event_uid
    &&& a.name == b.name
    &&& a.description == b.description
    &&& a.path == b.path
    &&& a.on_failure == b.on_failure
    &&& a.created_at == b.created_at
    &&& a.deleted_at == b.deleted_at
}

impl Task {
    /// A worker runs a task only while the row is not final: an envelope for
    /// a task that already ended is a duplicate delivery.
    pub fn should_run(&self) -> (r: bool)
        ensures
            r == !self.status.spec_is_terminal(),
    {
        !self.status.is_terminal()
    }

    /// Marks the task running at `now`; a final row is left as it is.
    /// Returns whether the row was claimed.
    pub fn start(&mut self, now: i64) -> (started: bool)
        requires
            old(self).wf(),
        ensures
            final(self).wf(),
            started == !old(self).status.spec_is_terminal(),
            !started ==> *final(self) == *old(self),
            started ==> {
                &&& same_identity(*final(self), *old(self))
                &&& final(self).status == TaskStatus::Running
                &&& final(self).updated_at == not_before(now, old(self).created_at)
                &&& final(self).completed_at is None
                &&& final(self).stdout == old(self).stdout
                &&& final(self).stderr == old(self).stderr
            },
    {
        if self.status.is_terminal() {
            return false;
        }
        self.status = TaskStatus::Running;
        self.updated_at = clamp_not_before(now, self.created_at);
        true
    }

    /// Records how the task's script ended, at `now`: Completed with a
    /// completion time on exit code 0, Failed otherwise, and the captured
    /// output either way. A final row is left as it is. Returns whether the
    /// row changed.
    pub fn finish(&mut self, outcome: &ScriptOutcome, now: i64) -> (recorded: bool)
        requires
            old(self).wf(),
        ensures
            final(self).wf(),
            recorded == !old(self).status.spec_is_terminal(),
            !recorded ==> *final(self) == *old(self),
            recorded ==> {
                &&& same_identity(*final(self), *old(self))
                &&& final(self).status == (if outcome.spec_succeeded() {
                    TaskStatus::Completed
                } else {
                    TaskStatus::Failed
                })
                &&& final(self).updated_at == not_before(now, old(self).created_at)
                &&& final(self).completed_at == (if outcome.spec_succeeded() {
                    Some(not_before(now, old(self).created_at))
                } else {
                    None
                })
                &&& opt_text(final(self).stdout) == Some(outcome.stdout@)
                &&& opt_text(final(self).stderr) == Some(outcome.stderr@)
            },
    {
        if self.status.is_terminal() {
            return false;
        }
        let at = clamp_not_before(now, self.created_at);
        if outcome.succeeded() {
            self.status = TaskStatus::Completed;
            self.completed_at = Some(at);
        } else {
            self.status = TaskStatus::Failed;
            self.completed_at = None;
        }
        self.updated_at = at;
        self.stdout = Some(outcome.stdout.clone());
        self.stderr = Some(outcome.stderr.clone());
        true
    }
}

/// Every task that has ended was last updated no earlier than it was
/// created, and a completed task carries its completion time.
pub proof fn lemma_ended_task_timestamps(t: Task)
    requires
        t.wf(),
    ensures
        t.status.spec_is_terminal() ==> t.updated_at >= t.created_at,
        t.status is Completed ==> t.completed_at is Some,
{
}

/// What the task loop does with what one pop of the queue gave.
#[derive(Clone, Debug)]
pub enum Dispatch {
    /// The queue was empty.
    Idle,
    /// Hand the decoded task to the worker pool.
    Run(LightTask),
    /// The message is no envelope; it is dropped and the task row, if any,
    /// is left as it is.
    Corrupted,
}

/// Decides what to do with one pop of the queue.
pub fn dispatch_popped(popped: Option<Vec<u8>>) -> (r: Dispatch)
    ensures
        match popped {
            None => r is Idle,
            Some(b) => match parse_envelope(b@) {
                Some(f) => r matches Dispatch::Run(t) && light_fields(t) == f,
                None => r is Corrupted,
            },
        },
{
    match popped {
        None => Dispatch::Idle,
        Some(b) => match decode_light_task(b.as_slice()) {
            Ok(t) => Dispatch::Run(t),
            Err(_) => Dispatch::Corrupted,
        },
    }
}

} // verus!
