use workflow::envelope::encode_light_task;
use workflow::model::{LightTask, Task};
use workflow::script::ScriptOutcome;
use workflow::status::TaskStatus;
use workflow::worker::{dispatch_popped, Dispatch};

fn pending_task(uid: i32, created_at: i64) -> Task {
    Task {
        uid,
        event_uid: 1,
        name: Some("t".to_string()),
        description: None,
        path: "/wf/t.sh".to_string(),
        on_failure: None,
        status: TaskStatus::Pending,
        stdout: None,
        stderr: None,
        created_at,
        updated_at: created_at,
        completed_at: None,
        deleted_at: None,
    }
}

fn outcome(code: Option<i32>, out: &str, err: &str) -> ScriptOutcome {
    ScriptOutcome { exit_code: code, stdout: out.to_string(), stderr: err.to_string() }
}

#[test]
fn task_runs_then_completes() {
    let mut t = pending_task(5, 100);
    assert!(t.should_run());
    assert!(t.start(150));
    assert_eq!(t.status, TaskStatus::Running);
    assert_eq!(t.updated_at, 150);
    assert!(t.finish(&outcome(Some(0), "hello\n", ""), 170));
    assert_eq!(t.status, TaskStatus::Completed);
    assert_eq!(t.updated_at, 170);
    assert_eq!(t.completed_at, Some(170));
    assert_eq!(t.stdout.as_deref(), Some("hello\n"));
    assert_eq!(t.stderr.as_deref(), Some(""));
}

#[test]
fn task_failure_keeps_completion_time_empty() {
    let mut t = pending_task(5, 100);
    t.start(110);
    assert!(t.finish(&outcome(Some(3), "", "boom"), 120));
    assert_eq!(t.status, TaskStatus::Failed);
    assert_eq!(t.completed_at, None);
    assert_eq!(t.updated_at, 120);
    assert_eq!(t.stderr.as_deref(), Some("boom"));
}

#[test]
fn task_in_missing_directory_fails_with_stderr() {
    let mut t = pending_task(9, 100);
    t.start(101);
    let spawn_failed = ScriptOutcome::not_started("No such file or directory (os error 2)".to_string());
    assert!(t.finish(&spawn_failed, 102));
    assert_eq!(t.status, TaskStatus::Failed);
    assert_eq!(t.stderr.as_deref(), Some("No such file or directory (os error 2)"));
    assert_eq!(t.completed_at, None);
}

#[test]
fn ended_task_is_not_run_again() {
    let mut t = pending_task(5, 100);
    t.start(110);
    t.finish(&outcome(Some(0), "once", ""), 120);
    assert!(!t.should_run());
    assert!(!t.start(130));
    assert!(!t.finish(&outcome(Some(1), "twice", ""), 140));
    assert_eq!(t.status, TaskStatus::Completed);
    assert_eq!(t.updated_at, 120);
    assert_eq!(t.completed_at, Some(120));
    assert_eq!(t.stdout.as_deref(), Some("once"));
}

#[test]
fn clock_behind_creation_is_clamped() {
    let mut t = pending_task(5, 1000);
    t.start(900);
    assert_eq!(t.updated_at, 1000);
    t.finish(&outcome(Some(0), "", ""), 950);
    assert_eq!(t.updated_at, 1000);
    assert_eq!(t.completed_at, Some(1000));
    assert!(t.updated_at >= t.created_at);
}

#[test]
fn killed_script_fails_task() {
    let mut t = pending_task(5, 0);
    t.start(1);
    t.finish(&outcome(None, "partial", ""), 2);
    assert_eq!(t.status, TaskStatus::Failed);
    assert_eq!(t.stdout.as_deref(), Some("partial"));
}

#[test]
fn light_projection_keeps_envelope_fields() {
    let mut t = pending_task(12, 0);
    t.on_failure = Some("cleanup".to_string());
    let l = t.light();
    assert_eq!(l.uid, 12);
    assert_eq!(l.path, "/wf/t.sh");
    assert_eq!(l.on_failure.as_deref(), Some("cleanup"));
}

#[test]
fn dispatch_of_pops() {
    assert!(matches!(dispatch_popped(None), Dispatch::Idle));
    let bytes = encode_light_task(&LightTask { uid: 4, path: "/x/y.sh".to_string(), on_failure: None });
    match dispatch_popped(Some(bytes)) {
        Dispatch::Run(t) => {
            assert_eq!(t.uid, 4);
            assert_eq!(t.path, "/x/y.sh");
        }
        other => panic!("expected a task, got {:?}", other),
    }
    assert!(matches!(dispatch_popped(Some(vec![1, 2])), Dispatch::Corrupted));
}
