//! Submission: a parsed workflow declaration turned into the rows it inserts.
//! Script paths in a declaration are relative to the workflow file's
//! directory and are resolved against it before anything is stored.
use vstd::prelude::*;

use crate::model::{copy_opt_text, opt_text, NewEvent, NewTask};
use crate::status::{EventStatus, TaskStatus};

verus! {

/// A task as a workflow file declares it.
#[derive(Clone, Debug)]
pub struct Task {
    pub name: Option<String>,
    pub description: Option<String>,
    pub path: String,
    pub on_failure: Option<String>,
}

/// An event as a workflow file declares it, with its tasks.
#[derive(Clone, Debug)]
pub struct ParsableEvent {
    pub name: Option<String>,
    pub description: Option<String>,
    pub trigger: String,
    pub tasks: Vec<Task>,
}

/// A workflow file.
#[derive(Clone, Debug)]
pub struct Workflow {
    pub name: Option<String>,
    pub description: Option<String>,
    pub events: Vec<ParsableEvent>,
}

/// `rel` joined onto `base`, as `std::path::Path::join` gives it.
pub uninterp spec fn joined_path(base: Seq<char>, rel: Seq<char>) -> Seq<char>;

/// Relies on `std::path::Path::join`: `rel` appended to `base` as a further
/// component. Both come from `str`, so the result is UTF-8 and converts
/// without loss.
#[verifier::external_body]
fn join_path(base: &str, rel: &str) -> (r: String)
    ensures
        r@ == joined_path(base@, rel@),
{
    std::path::Path::new(base).join(rel).to_string_lossy().into_owned()
}

/// `r` is task declaration `d` with its script resolved against `root`.
pub open spec fn resolved_task(r: Task, d: Task, root: Seq<char>) -> bool {
    &&& opt_text(r.name) == opt_text(d.name)
    &&& opt_text(r.description) == opt_text(d.description)
    &&& r.path@ == joined_path(root, d.path@)
    &&& opt_text(r.on_failure) == opt_text(d.on_failure)
}

/// `r` is event declaration `d` with its trigger and task scripts resolved
/// against `root`, tasks in their declared order.
pub open spec fn resolved_event(r: ParsableEvent, d: ParsableEvent, root: Seq<char>) -> bool {
    &&& opt_text(r.name) == opt_text(d.name)
    &&& opt_text(r.description) == opt_text(d.description)
    &&& r.trigger@ == joined_path(root, d.trigger@)
    &&& r.tasks@.len() == d.tasks@.len()
    &&& forall|i: int|
        0 <= i < r.tasks@.len() ==> resolved_task(#[trigger] r.tasks@[i], d.tasks@[i], root)
}

/// Resolves one task declaration's script against `root`.
pub fn resolve_task(d: &Task, root: &str) -> (r: Task)
    ensures
        resolved_task(r, *d, root@),
{
    Task {
        name: copy_opt_text(&d.name),
        description: copy_opt_text(&d.description),
        path: join_path(root, d.path.as_str()),
        on_failure: copy_opt_text(&d.on_failure),
    }
}

/// Resolves an event declaration's trigger and task scripts against `root`,
/// the directory of the workflow file.
pub fn resolve_event(d: &ParsableEvent, root: &str) -> (r: ParsableEvent)
    ensures
        resolved_event(r, *d, root@),
{
    let mut tasks: Vec<Task> = Vec::new();
    let mut i: usize = 0;
    while i < d.tasks.len()
        invariant
            i <= d.tasks@.len(),
            tasks@.len() == i,
            forall|j: int|
                0 <= j < i ==> resolved_task(#[trigger] tasks@[j], d.tasks@[j], root@),
        decreases d.tasks@.len() - i,
    {
        tasks.push(resolve_task(&d.tasks[i], root));
        i = i + 1;
    }
    ParsableEvent {
        name: copy_opt_text(&d.name),
        description: copy_opt_text(&d.description),
        trigger: join_path(root, d.trigger.as_str()),
        tasks,
    }
}

/// The event row a declaration inserts at `now`.
pub fn new_event_row(e: &ParsableEvent, now: i64) -> (r: NewEvent)
    ensures
        opt_text(r.name) == opt_text(e.name),
        opt_text(r.description) == opt_text(e.description),
        r.trigger@ == e.trigger@,
        r.status == EventStatus::Created,
        r.created_at == now,
{
    NewEvent {
        name: copy_opt_text(&e.name),
        description: copy_opt_text(&e.description),
        trigger: e.trigger.clone(),
        status: EventStatus::Created,
        created_at: now,
    }
}

/// `r` is the row task declaration `d` inserts under event `event_uid` at
/// `now`.
pub open spec fn task_row_of(r: NewTask, d: Task, event_uid: i32, now: i64) -> bool {
    &&& r.event_uid == event_uid
    &&& opt_text(r.name) == opt_text(d.name)
    &&& opt_text(r.description) == opt_text(d.description)
    &&& r.path@ == d.path@
    &&& opt_text(r.on_failure) == opt_text(d.on_failure)
    &&& r.status == TaskStatus::Pending
    &&& r.created_at == now
    &&& r.updated_at == now
}

/// `rows` are the rows that `decls` insert under event `event_uid` at `now`,
/// one per declaration, in declared order.
pub open spec fn task_rows_of(rows: Seq<NewTask>, decls: Seq<Task>, event_uid: i32, now: i64) -> bool {
    &&& rows.len() == decls.len()
    &&& forall|i: int| 0 <= i < rows.len() ==> task_row_of(#[trigger] rows[i], decls[i], event_uid, now)
}

/// The task rows an event's declaration inserts once the event row has
/// `event_uid`, in declared order, so that the tasks' ascending uids follow
/// the declaration.
pub fn new_task_rows(e: &ParsableEvent, event_uid: i32, now: i64) -> (r: Vec<NewTask>)
    ensures
        task_rows_of(r@, e.tasks@, event_uid, now),
{
    let mut rows: Vec<NewTask> = Vec::new();
    let mut i: usize = 0;
    while i < e.tasks.len()
        invariant
            i <= e.tasks@.len(),
            rows@.len() == i,
            forall|j: int|
                0 <= j < i ==> task_row_of(#[trigger] rows@[j], e.tasks@[j], event_uid, now),
        decreases e.tasks@.len() - i,
    {
        let d = &e.tasks[i];
        rows.push(
            NewTask {
                event_uid,
                name: copy_opt_text(&d.name),
                description: copy_opt_text(&d.description),
                path: d.path.clone(),
                on_failure: copy_opt_text(&d.on_failure),
                status: TaskStatus::Pending,
                created_at: now,
                updated_at: now,
            },
        );
        i = i + 1;
    }
    rows
}

/// Submitting the same declaration twice is not deduplicated: each
/// submission inserts a full set of task rows, and the two sets, bound to
/// their own event rows, share no row.
pub proof fn lemma_resubmission_yields_separate_groups(
    decls: Seq<Task>,
    rows1: Seq<NewTask>,
    rows2: Seq<NewTask>,
    event1: i32,
    event2: i32,
    t1: i64,
    t2: i64,
)
    requires
        task_rows_of(rows1, decls, event1, t1),
        task_rows_of(rows2, decls, event2, t2),
        event1 != event2,
    ensures
        rows1.len() == decls.len(),
        rows2.len() == decls.len(),
        forall|i: int, j: int|
            0 <= i < rows1.len() && 0 <= j < rows2.len() ==> (#[trigger] rows1[i]).event_uid
                != (#[trigger] rows2[j]).event_uid,
{
    assert forall|i: int, j: int|
        0 <= i < rows1.len() && 0 <= j < rows2.len() implies (#[trigger] rows1[i]).event_uid
        != (#[trigger] rows2[j]).event_uid by {
        assert(task_row_of(rows1[i], decls[i], event1, t1));
        assert(task_row_of(rows2[j], decls[j], event2, t2));
    }
}

} // verus!
