//! The event poller's decisions: which events to try, what a trigger run does
//! to its event, and which envelopes go on the queue when an event fires.
use vstd::prelude::*;

use crate::envelope::{encode_light_task, envelope_bytes};
use crate::model::{copy_opt_text, light_fields, opt_text, Event, LightEvent, LightTask, Task};
use crate::script::ScriptOutcome;
use crate::status::EventStatus;

verus! {

/// The envelope written for the given fields.
pub open spec fn envelope_of(f: (i32, Seq<char>, Option<Seq<char>>)) -> Seq<u8> {
    envelope_bytes(f.0, f.1, f.2)
}

/// The tasks owned by event `event_uid`, in the order given.
pub open spec fn children_of(tasks: Seq<Task>, event_uid: i32) -> Seq<Task>
    decreases tasks.len(),
{
    if tasks.len() == 0 {
        Seq::empty()
    } else {
        let rest = children_of(tasks.drop_last(), event_uid);
        if tasks.last().event_uid == event_uid {
            rest.push(tasks.last())
        } else {
            rest
        }
    }
}

/// The envelopes of the tasks owned by event `event_uid`, in the order given.
pub open spec fn child_envelopes(tasks: Seq<Task>, event_uid: i32) -> Seq<Seq<u8>> {
    children_of(tasks, event_uid).map_values(|t: Task| envelope_of(t.spec_light_fields()))
}

/// A trigger run fires its event when the event had not yet succeeded and
/// the script succeeded.
pub open spec fn fires(status: EventStatus, succeeded: bool) -> bool {
    !(status is Succeeded) && succeeded
}

/// An event's status after a trigger run: Succeeded is final, otherwise the
/// run decides.
pub open spec fn status_after_trigger(status: EventStatus, succeeded: bool) -> EventStatus {
    if status is Succeeded || succeeded {
        EventStatus::Succeeded
    } else {
        EventStatus::Retrying
    }
}

/// What one trigger run puts on the queue.
pub open spec fn trigger_pushes(
    status: EventStatus,
    succeeded: bool,
    tasks: Seq<Task>,
    event_uid: i32,
) -> Seq<Seq<u8>> {
    if fires(status, succeeded) {
        child_envelopes(tasks, event_uid)
    } else {
        Seq::empty()
    }
}

/// What a series of trigger runs of one event puts on the queue, run by run.
pub open spec fn polls_pushes(
    status: EventStatus,
    runs: Seq<bool>,
    tasks: Seq<Task>,
    event_uid: i32,
) -> Seq<Seq<u8>>
    decreases runs.len(),
{
    if runs.len() == 0 {
        Seq::empty()
    } else {
        trigger_pushes(status, runs[0], tasks, event_uid) + polls_pushes(
            status_after_trigger(status, runs[0]),
            runs.drop_first(),
            tasks,
            event_uid,
        )
    }
}

/// Whatever series of trigger runs an unfired event goes through, its tasks
/// are enqueued once each, in order, if some run succeeds, and never
/// otherwise; an event that already succeeded enqueues nothing more.
pub proof fn lemma_children_enqueued_once(
    status: EventStatus,
    runs: Seq<bool>,
    tasks: Seq<Task>,
    event_uid: i32,
)
    ensures
        polls_pushes(status, runs, tasks, event_uid) == (if !(status is Succeeded) && (exists|
            i: int,
        | 0 <= i < runs.len() && runs[i]) {
            child_envelopes(tasks, event_uid)
        } else {
            Seq::<Seq<u8>>::empty()
        }),
    decreases runs.len(),
{
    if runs.len() > 0 {
        let next = status_after_trigger(status, runs[0]);
        lemma_children_enqueued_once(next, runs.drop_first(), tasks, event_uid);
        let rest = runs.drop_first();
        if exists|i: int| 0 <= i < runs.len() && runs[i] {
            if !runs[0] {
                let i = choose|i: int| 0 <= i < runs.len() && runs[i];
                assert(rest[i - 1]);
            }
        } else {
            assert forall|i: int| 0 <= i < rest.len() implies !rest[i] by {
                assert(runs[i + 1] == rest[i]);
            }
        }
        assert(polls_pushes(status, runs, tasks, event_uid) =~= trigger_pushes(
            status,
            runs[0],
            tasks,
            event_uid,
        ) + polls_pushes(next, rest, tasks, event_uid));
    }
}

impl Event {
    /// Records a trigger run at `now`: the captured output always; Succeeded
    /// on exit code 0; otherwise Retrying with a fresh trigger time. An event
    /// that already succeeded keeps its status. Returns whether the run fired
    /// the event.
    pub fn record_trigger(&mut self, outcome: &ScriptOutcome, now: i64) -> (fired: bool)
        ensures
            fired == fires(old(self).status, outcome.spec_succeeded()),
            final(self).status == status_after_trigger(old(self).status, outcome.spec_succeeded()),
            final(self).triggered_at == (if !(old(self).status is Succeeded)
                && !outcome.spec_succeeded() {
                Some(now)
            } else {
                old(self).triggered_at
            }),
            opt_text(final(self).stdout) == Some(outcome.stdout@),
            opt_text(final(self).stderr) == Some(outcome.stderr@),
            final(self).uid == old(self).uid,
            final(self).name == old(self).name,
            final(self).description == old(self).description,
            final(self).trigger == old(self).trigger,
            final(self).created_at == old(self).created_at,
            final(self).deleted_at == old(self).deleted_at,
    {
        self.stdout = Some(outcome.stdout.clone());
        self.stderr = Some(outcome.stderr.clone());
        let already = matches!(self.status, EventStatus::Succeeded);
        if already {
            false
        } else if outcome.succeeded() {
            self.status = EventStatus::Succeeded;
            true
        } else {
            self.status = EventStatus::Retrying;
            self.triggered_at = Some(now);
            false
        }
    }
}

/// The envelopes of the tasks owned by event `event_uid`, in the order of
/// `tasks`.
pub fn child_light_tasks(tasks: &Vec<Task>, event_uid: i32) -> (r: Vec<LightTask>)
    ensures
        r@.len() == children_of(tasks@, event_uid).len(),
        forall|i: int|
            0 <= i < r@.len() ==> light_fields(#[trigger] r@[i]) == children_of(
                tasks@,
                event_uid,
            )[i].spec_light_fields(),
{
    let mut r: Vec<LightTask> = Vec::new();
    let mut i: usize = 0;
    while i < tasks.len()
        invariant
            i <= tasks@.len(),
            r@.len() == children_of(tasks@.subrange(0, i as int), event_uid).len(),
            forall|j: int|
                0 <= j < r@.len() ==> light_fields(#[trigger] r@[j]) == children_of(
                    tasks@.subrange(0, i as int),
                    event_uid,
                )[j].spec_light_fields(),
        decreases tasks@.len() - i,
    {
        let ghost before = tasks@.subrange(0, i as int);
        let ghost after = tasks@.subrange(0, i as int + 1);
        assert(after.drop_last() =~= before);
        assert(after.last() == tasks@[i as int]);
        if tasks[i].event_uid == event_uid {
            let l = tasks[i].light();
            r.push(l);
        }
        i = i + 1;
    }
    assert(tasks@.subrange(0, tasks@.len() as int) =~= tasks@);
    r
}

/// The envelope bytes of each task, in order.
pub fn encode_all(tasks: &Vec<LightTask>) -> (r: Vec<Vec<u8>>)
    ensures
        r@.len() == tasks@.len(),
        forall|i: int|
            0 <= i < r@.len() ==> (#[trigger] r@[i])@ == envelope_of(light_fields(tasks@[i])),
{
    let mut r: Vec<Vec<u8>> = Vec::new();
    let mut i: usize = 0;
    while i < tasks.len()
        invariant
            i <= tasks@.len(),
            r@.len() == i,
            forall|j: int|
                0 <= j < i ==> (#[trigger] r@[j])@ == envelope_of(light_fields(tasks@[j])),
        decreases tasks@.len() - i,
    {
        r.push(encode_light_task(&tasks[i]));
        i = i + 1;
    }
    r
}

/// Settles one trigger run of `event`: records it, and returns the envelopes
/// to push, which are those of the event's tasks among `tasks`, in order, when
/// the run fired the event, and none otherwise.
pub fn resolve_trigger(event: &mut Event, outcome: &ScriptOutcome, tasks: &Vec<Task>, now: i64) -> (pushes: Vec<Vec<u8>>)
    ensures
        final(event).status == status_after_trigger(old(event).status, outcome.spec_succeeded()),
        final(event).triggered_at == (if !(old(event).status is Succeeded)
            && !outcome.spec_succeeded() {
            Some(now)
        } else {
            old(event).triggered_at
        }),
        opt_text(final(event).stdout) == Some(outcome.stdout@),
        opt_text(final(event).stderr) == Some(outcome.stderr@),
        final(event).uid == old(event).uid,
        final(event).trigger == old(event).trigger,
        pushes@.map_values(|v: Vec<u8>| v@) == trigger_pushes(
            old(event).status,
            outcome.spec_succeeded(),
            tasks@,
            old(event).uid,
        ),
{
    let uid = event.uid;
    let fired = event.record_trigger(outcome, now);
    if fired {
        let children = child_light_tasks(tasks, uid);
        let pushes = encode_all(&children);
        assert(pushes@.map_values(|v: Vec<u8>| v@) =~= child_envelopes(tasks@, uid));
        pushes
    } else {
        let pushes: Vec<Vec<u8>> = Vec::new();
        assert(pushes@.map_values(|v: Vec<u8>| v@) =~= Seq::<Seq<u8>>::empty());
        pushes
    }
}

/// Every task selected for an event is one of the given tasks.
proof fn lemma_children_drawn_from(tasks: Seq<Task>, event_uid: i32)
    ensures
        forall|k: int|
            0 <= k < children_of(tasks, event_uid).len() ==> exists|m: int|
                0 <= m < tasks.len() && tasks[m] == #[trigger] children_of(tasks, event_uid)[k],
    decreases tasks.len(),
{
    if tasks.len() > 0 {
        let init = tasks.drop_last();
        lemma_children_drawn_from(init, event_uid);
        assert forall|k: int| 0 <= k < children_of(tasks, event_uid).len() implies exists|m: int|
            0 <= m < tasks.len() && tasks[m] == #[trigger] children_of(tasks, event_uid)[k] by {
            if k < children_of(init, event_uid).len() {
                let m = choose|m: int| 0 <= m < init.len() && init[m] == children_of(init, event_uid)[k];
                assert(tasks[m] == init[m]);
            } else {
                assert(tasks[tasks.len() - 1] == children_of(tasks, event_uid)[k]);
            }
        }
    }
}

/// When the given tasks come in insertion order (ascending uid), an event's
/// tasks are enqueued in the order they were inserted.
pub proof fn lemma_children_in_insertion_order(tasks: Seq<Task>, event_uid: i32)
    requires
        forall|i: int, j: int| 0 <= i < j < tasks.len() ==> (#[trigger] tasks[i]).uid < (#[trigger] tasks[j]).uid,
    ensures
        forall|i: int, j: int|
            0 <= i < j < children_of(tasks, event_uid).len() ==> (#[trigger] children_of(tasks, event_uid)[i]).uid
                < (#[trigger] children_of(tasks, event_uid)[j]).uid,
        child_envelopes(tasks, event_uid).len() == children_of(tasks, event_uid).len(),
        forall|i: int|
            0 <= i < children_of(tasks, event_uid).len() ==> #[trigger] child_envelopes(tasks, event_uid)[i]
                == envelope_of(children_of(tasks, event_uid)[i].spec_light_fields()),
    decreases tasks.len(),
{
    if tasks.len() > 0 {
        let init = tasks.drop_last();
        lemma_children_in_insertion_order(init, event_uid);
        lemma_children_drawn_from(init, event_uid);
        let ci = children_of(init, event_uid);
        let c = children_of(tasks, event_uid);
        assert forall|i: int, j: int| 0 <= i < j < c.len() implies (#[trigger] c[i]).uid < (#[trigger] c[j]).uid by {
            if j < ci.len() {
                assert(c[i] == ci[i] && c[j] == ci[j]);
            } else {
                let m = choose|m: int| 0 <= m < init.len() && init[m] == #[trigger] ci[i];
                assert(c[i] == ci[i]);
                assert(tasks[m] == init[m]);
                assert(c[j] == tasks[tasks.len() - 1]);
            }
        }
    }
}

impl LightEvent {
    /// The columns as values.
    pub open spec fn spec_fields(&self) -> (i32, Option<Seq<char>>, Option<Seq<char>>, Seq<char>, EventStatus) {
        (self.uid, opt_text(self.name), opt_text(self.description), self.trigger@, self.status)
    }

    pub fn copy(&self) -> (r: LightEvent)
        ensures
            r.spec_fields() == self.spec_fields(),
    {
        LightEvent {
            uid: self.uid,
            name: copy_opt_text(&self.name),
            description: copy_opt_text(&self.description),
            trigger: self.trigger.clone(),
            status: self.status,
        }
    }
}

/// The events a poll tick tries: those not yet succeeded, in the order given.
pub open spec fn awaiting_trigger(events: Seq<LightEvent>) -> Seq<LightEvent>
    decreases events.len(),
{
    if events.len() == 0 {
        Seq::empty()
    } else {
        let rest = awaiting_trigger(events.drop_last());
        if events.last().status is Succeeded {
            rest
        } else {
            rest.push(events.last())
        }
    }
}

/// Picks the events whose triggers a poll tick runs: those not yet
/// succeeded, in the order given.
pub fn events_to_poll(events: &Vec<LightEvent>) -> (r: Vec<LightEvent>)
    ensures
        r@.len() == awaiting_trigger(events@).len(),
        forall|i: int|
            0 <= i < r@.len() ==> (#[trigger] r@[i]).spec_fields() == awaiting_trigger(events@)[i].spec_fields(),
{
    let mut r: Vec<LightEvent> = Vec::new();
    let mut i: usize = 0;
    while i < events.len()
        invariant
            i <= events@.len(),
            r@.len() == awaiting_trigger(events@.subrange(0, i as int)).len(),
            forall|j: int|
                0 <= j < r@.len() ==> (#[trigger] r@[j]).spec_fields() == awaiting_trigger(
                    events@.subrange(0, i as int),
                )[j].spec_fields(),
        decreases events@.len() - i,
    {
        let ghost before = events@.subrange(0, i as int);
        let ghost after = events@.subrange(0, i as int + 1);
        assert(after.drop_last() =~= before);
        assert(after.last() == events@[i as int]);
        if !matches!(events[i].status, EventStatus::Succeeded) {
            r.push(events[i].copy());
        }
        i = i + 1;
    }
    assert(events@.subrange(0, events@.len() as int) =~= events@);
    r
}

} // verus!
