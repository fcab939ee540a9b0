use workflow::engine::{engine_address, engine_name, EngineSetupError, InterfaceInfo, ProcessKind};
use workflow::model::{Engine, NewEngine};
use workflow::status::{EngineStatus, ProcessStatus};

fn engine(uid: i32) -> Engine {
    Engine::register(
        uid,
        NewEngine { name: "workflow-engine".to_string(), ip_address: "10.0.0.2".to_string() },
        1000,
    )
}

fn rows_equal(a: &Engine, b: &Engine) -> bool {
    a.uid == b.uid
        && a.name == b.name
        && a.ip_address == b.ip_address
        && a.status == b.status
        && a.stop_signal == b.stop_signal
        && a.started_at == b.started_at
        && a.stopped_at == b.stopped_at
        && a.task_process_status == b.task_process_status
        && a.event_process_status == b.event_process_status
}

#[test]
fn registered_engine_is_starting() {
    let e = engine(3);
    assert_eq!(e.uid, 3);
    assert_eq!(e.status, EngineStatus::Starting);
    assert!(!e.stop_signal);
    assert_eq!(e.started_at, 1000);
    assert_eq!(e.stopped_at, None);
}

#[test]
fn supervisor_marks_engine_running() {
    let mut e = engine(1);
    e.mark_running();
    assert_eq!(e.status, EngineStatus::Running);
    e.process_stopped(ProcessKind::Task, 2000);
    e.mark_running();
    assert_eq!(e.status, EngineStatus::Stopped);
}

#[test]
fn stop_request_twice_equals_once() {
    let mut once = engine(1);
    once.request_stop();
    let mut twice = engine(1);
    twice.request_stop();
    twice.request_stop();
    assert!(once.stop_signal);
    assert!(rows_equal(&once, &twice));
}

#[test]
fn engine_stopped_after_both_processes_exit() {
    for first in [ProcessKind::Event, ProcessKind::Task] {
        let second = if first == ProcessKind::Event { ProcessKind::Task } else { ProcessKind::Event };
        let mut e = engine(1);
        e.mark_running();
        e.process_started(ProcessKind::Event);
        e.process_started(ProcessKind::Task);
        assert_eq!(e.event_process_status, ProcessStatus::Running);
        assert_eq!(e.task_process_status, ProcessStatus::Running);
        e.request_stop();
        e.process_stopped(first, 5000);
        e.process_stopped(second, 5001);
        assert_eq!(e.status, EngineStatus::Stopped);
        assert_eq!(e.task_process_status, ProcessStatus::Stopped);
        assert_eq!(e.event_process_status, ProcessStatus::Stopped);
        assert!(e.stop_signal);
        assert!(e.stopped_at.is_some());
    }
}

#[test]
fn engine_name_defaults() {
    assert_eq!(engine_name(None), "workflow-engine");
    assert_eq!(engine_name(Some("edge-1".to_string())), "edge-1");
}

#[test]
fn engine_address_picks_first_usable_interface() {
    let iface = |up: bool, lo: bool, ips: &[&str]| InterfaceInfo {
        is_up: up,
        is_loopback: lo,
        ipv4: ips.iter().map(|s| s.to_string()).collect(),
    };
    let ifaces = vec![
        iface(true, true, &["127.0.0.1"]),
        iface(false, false, &["10.0.0.9"]),
        iface(true, false, &[]),
        iface(true, false, &["192.168.1.5", "192.168.1.6"]),
        iface(true, false, &["172.16.0.1"]),
    ];
    assert_eq!(engine_address(&ifaces).unwrap(), "192.168.1.5");
    assert_eq!(
        engine_address(&vec![iface(true, true, &["127.0.0.1"])]).unwrap_err(),
        EngineSetupError::NoNetworkInterface
    );
    assert_eq!(engine_address(&vec![]).unwrap_err(), EngineSetupError::NoNetworkInterface);
}

#[test]
fn process_log_files() {
    assert_eq!(ProcessKind::Event.stdout_log(), "./logs/event_stdout.txt");
    assert_eq!(ProcessKind::Event.stderr_log(), "./logs/event_stderr.txt");
    assert_eq!(ProcessKind::Task.stdout_log(), "./logs/task_stdout.txt");
    assert_eq!(ProcessKind::Task.stderr_log(), "./logs/task_stderr.txt");
    assert_eq!(ProcessKind::Task.subcommand(), "start-task-process");
}
