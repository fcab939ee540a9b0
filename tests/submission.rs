use workflow::parser::{new_event_row, new_task_rows, resolve_event, ParsableEvent, Task};
use workflow::status::{EventStatus, TaskStatus};

fn decl() -> ParsableEvent {
    ParsableEvent {
        name: Some("nightly".to_string()),
        description: Some("d".to_string()),
        trigger: "triggers/ready.sh".to_string(),
        tasks: vec![
            Task { name: Some("one".to_string()), description: None, path: "tasks/one.sh".to_string(), on_failure: None },
            Task { name: None, description: None, path: "two.sh".to_string(), on_failure: Some("hook".to_string()) },
        ],
    }
}

#[test]
fn scripts_resolve_against_workflow_dir() {
    let r = resolve_event(&decl(), "/srv/wf");
    assert_eq!(r.trigger, "/srv/wf/triggers/ready.sh");
    assert_eq!(r.tasks.len(), 2);
    assert_eq!(r.tasks[0].path, "/srv/wf/tasks/one.sh");
    assert_eq!(r.tasks[1].path, "/srv/wf/two.sh");
    assert_eq!(r.tasks[1].on_failure.as_deref(), Some("hook"));
    assert_eq!(r.name.as_deref(), Some("nightly"));
}

#[test]
fn submission_rows() {
    let r = resolve_event(&decl(), "/srv/wf");
    let ev = new_event_row(&r, 77);
    assert_eq!(ev.status, EventStatus::Created);
    assert_eq!(ev.trigger, "/srv/wf/triggers/ready.sh");
    assert_eq!(ev.created_at, 77);
    let rows = new_task_rows(&r, 9, 77);
    assert_eq!(rows.len(), 2);
    assert_eq!(rows[0].event_uid, 9);
    assert_eq!(rows[0].status, TaskStatus::Pending);
    assert_eq!(rows[0].path, "/srv/wf/tasks/one.sh");
    assert_eq!(rows[1].path, "/srv/wf/two.sh");
    assert_eq!(rows[1].created_at, 77);
    assert_eq!(rows[1].updated_at, 77);
}

#[test]
fn same_workflow_submitted_twice_gives_two_groups() {
    let r = resolve_event(&decl(), "/srv/wf");
    let first = new_task_rows(&r, 1, 10);
    let second = new_task_rows(&r, 2, 11);
    assert_eq!(first.len(), 2);
    assert_eq!(second.len(), 2);
    assert!(first.iter().all(|a| second.iter().all(|b| a.event_uid != b.event_uid)));
}

#[test]
fn event_without_tasks_inserts_no_task_rows() {
    let mut d = decl();
    d.tasks.clear();
    assert!(new_task_rows(&resolve_event(&d, "/w"), 1, 0).is_empty());
}
