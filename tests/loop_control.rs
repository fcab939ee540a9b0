use std::collections::VecDeque;
use workflow::engine::ProcessKind;
use workflow::envelope::encode_light_task;
use workflow::model::{LightTask, Task};
use workflow::process_loop::{
    LoopAction, LoopInput, LoopStage, ProcessLoop, StopReading, IDLE_INTERVAL_MS, QUEUE_NAME,
    WORKER_POOL_SIZE,
};
use workflow::script::ScriptOutcome;
use workflow::status::TaskStatus;
use workflow::worker::{dispatch_popped, Dispatch};

#[test]
fn loop_constants() {
    assert_eq!(IDLE_INTERVAL_MS, 2000);
    assert_eq!(WORKER_POOL_SIZE, 4);
    assert_eq!(QUEUE_NAME, "tasks");
}

#[test]
fn task_loop_empty_queue_and_stop_exits_without_sleep() {
    let mut l = ProcessLoop::new(ProcessKind::Task);
    assert_eq!(l.action(), LoopAction::MarkRunning);
    assert_eq!(l.advance(LoopInput::Done, true), LoopAction::PopTask);
    assert_eq!(l.advance(LoopInput::Found(false), true), LoopAction::ReadStopSignal);
    assert_eq!(l.advance(LoopInput::StopRead(StopReading::Requested), true), LoopAction::MarkStopped);
    assert_eq!(l.advance(LoopInput::Done, true), LoopAction::Exit);
    assert_eq!(l.stage, LoopStage::Finished);
}

#[test]
fn event_loop_sleeps_only_when_idle() {
    let mut l = ProcessLoop::new(ProcessKind::Event);
    assert_eq!(l.advance(LoopInput::Done, true), LoopAction::LoadEvents);
    assert_eq!(l.advance(LoopInput::Found(true), true), LoopAction::ReadStopSignal);
    assert_eq!(l.advance(LoopInput::StopRead(StopReading::NotRequested), true), LoopAction::LoadEvents);
    assert_eq!(l.advance(LoopInput::Found(false), true), LoopAction::Sleep);
    assert_eq!(l.advance(LoopInput::Done, true), LoopAction::ReadStopSignal);
    assert_eq!(l.advance(LoopInput::StopRead(StopReading::Requested), true), LoopAction::MarkStopped);
}

#[test]
fn task_loop_sleeps_every_iteration() {
    let mut l = ProcessLoop::new(ProcessKind::Task);
    l.advance(LoopInput::Done, true);
    assert_eq!(l.advance(LoopInput::Found(true), true), LoopAction::ReadStopSignal);
    assert_eq!(l.advance(LoopInput::StopRead(StopReading::NoEngineRow), true), LoopAction::Sleep);
    assert_eq!(l.advance(LoopInput::Done, true), LoopAction::PopTask);
}

#[test]
fn unreadable_stop_signal_keeps_looping() {
    let mut l = ProcessLoop::new(ProcessKind::Event);
    l.advance(LoopInput::Done, true);
    l.advance(LoopInput::Found(true), true);
    assert_eq!(l.advance(LoopInput::StopRead(StopReading::Unreadable), true), LoopAction::LoadEvents);
}

#[test]
fn interrupt_flag_ends_loops() {
    let mut ev = ProcessLoop::new(ProcessKind::Event);
    ev.advance(LoopInput::Done, true);
    ev.advance(LoopInput::Found(true), false);
    assert_eq!(ev.advance(LoopInput::StopRead(StopReading::NotRequested), false), LoopAction::MarkStopped);

    let mut tk = ProcessLoop::new(ProcessKind::Task);
    tk.advance(LoopInput::Done, true);
    tk.advance(LoopInput::Found(false), false);
    assert_eq!(tk.advance(LoopInput::StopRead(StopReading::NotRequested), false), LoopAction::Sleep);
    assert_eq!(tk.advance(LoopInput::Done, false), LoopAction::MarkStopped);

    let mut early = ProcessLoop::new(ProcessKind::Task);
    assert_eq!(early.advance(LoopInput::Done, false), LoopAction::MarkStopped);
}

#[test]
fn mismatched_input_repeats_action() {
    let mut l = ProcessLoop::new(ProcessKind::Task);
    l.advance(LoopInput::Done, true);
    assert_eq!(l.advance(LoopInput::Done, true), LoopAction::PopTask);
    assert_eq!(l.stage, LoopStage::Working);
    let mut f = ProcessLoop { kind: ProcessKind::Event, stage: LoopStage::Finished };
    assert_eq!(f.advance(LoopInput::Done, true), LoopAction::Exit);
}

fn pending(uid: i32) -> Task {
    Task {
        uid,
        event_uid: 1,
        name: None,
        description: None,
        path: format!("/wf/t{}.sh", uid),
        on_failure: None,
        status: TaskStatus::Pending,
        stdout: None,
        stderr: None,
        created_at: 0,
        updated_at: 0,
        completed_at: None,
        deleted_at: None,
    }
}

#[test]
fn graceful_stop_lets_in_flight_task_finish() {
    let mut row = pending(1);
    let mut queue: VecDeque<Vec<u8>> = VecDeque::new();
    queue.push_back(encode_light_task(&row.light()));
    let mut l = ProcessLoop::new(ProcessKind::Task);
    l.advance(LoopInput::Done, true);
    let popped = queue.pop_front();
    let in_flight = match dispatch_popped(popped) {
        Dispatch::Run(t) => t,
        other => panic!("expected a task, got {:?}", other),
    };
    assert_eq!(in_flight.uid, 1);
    row.start(1);
    // stop arrives while the worker is running the script
    l.advance(LoopInput::Found(true), true);
    assert_eq!(l.advance(LoopInput::StopRead(StopReading::Requested), true), LoopAction::MarkStopped);
    row.finish(&ScriptOutcome { exit_code: Some(0), stdout: String::new(), stderr: String::new() }, 2);
    assert_eq!(row.status, TaskStatus::Completed);
}

#[test]
fn two_engines_share_one_queue() {
    let mut rows: Vec<Task> = (1..=8).map(pending).collect();
    let mut queue: VecDeque<Vec<u8>> = rows.iter().map(|t| encode_light_task(&t.light())).collect();
    let mut done_by = [0usize; 2];
    let mut turn = 0;
    while let Some(msg) = queue.pop_front() {
        if let Dispatch::Run(LightTask { uid, .. }) = dispatch_popped(Some(msg)) {
            let row = rows.iter_mut().find(|r| r.uid == uid).unwrap();
            if row.start(10) {
                row.finish(&ScriptOutcome { exit_code: Some(0), stdout: String::new(), stderr: String::new() }, 11);
                done_by[turn] += 1;
            }
        }
        turn = 1 - turn;
    }
    assert_eq!(done_by[0] + done_by[1], 8);
    assert!(rows.iter().all(|r| r.status.is_terminal()));
}

#[test]
fn crashed_worker_leaves_task_running() {
    let mut killed = pending(1);
    killed.start(5);
    // the process dies here: nothing records an outcome
    assert_eq!(killed.status, TaskStatus::Running);
    assert!(killed.should_run());
    let mut later = pending(2);
    assert!(later.start(6));
    later.finish(&ScriptOutcome { exit_code: Some(0), stdout: String::new(), stderr: String::new() }, 7);
    assert_eq!(later.status, TaskStatus::Completed);
    assert_eq!(killed.status, TaskStatus::Running);
}
