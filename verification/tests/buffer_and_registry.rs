use mpv_supervisor::log_buffer::LogBuffer;
use mpv_supervisor::log_buffer::DEFAULT_LOG_CAPACITY;
use mpv_supervisor::probe::probe_step;
use mpv_supervisor::probe::ProbeStep;
use mpv_supervisor::probe::timeout_message;
use mpv_supervisor::probe::POLL_INTERVAL_MS;
use mpv_supervisor::registry::ProcessInstance;
use mpv_supervisor::registry::Registry;
use mpv_supervisor::supervisor::commit_success;
use mpv_supervisor::supervisor::terminate_plan;

#[test]
fn log_buffer_never_exceeds_capacity() {
    let mut buf = LogBuffer::new(DEFAULT_LOG_CAPACITY);
    assert_eq!(buf.capacity(), 100);
    assert_eq!(buf.len(), 0);
    for i in 0..150 {
        buf.push(format!("line {}", i));
        assert!(buf.len() <= DEFAULT_LOG_CAPACITY);
    }
    assert_eq!(buf.len(), 100);
    // the most recent 100 lines remain, oldest first
    for i in 0..100 {
        assert_eq!(buf.line_at(i), &format!("line {}", i + 50));
    }
    let lines = buf.lines_vec();
    assert_eq!(lines.len(), 100);
    assert_eq!(lines[0], "line 50");
    assert_eq!(lines[99], "line 149");
}

#[test]
fn log_buffer_small_capacity() {
    let mut buf = LogBuffer::new(2);
    buf.push("a".to_string());
    buf.push("b".to_string());
    buf.push("c".to_string());
    assert_eq!(buf.len(), 2);
    assert_eq!(buf.line_at(0), "b");
    assert_eq!(buf.line_at(1), "c");
}

#[test]
fn probe_immediately_reachable() {
    assert_eq!(probe_step(0, 200, true), ProbeStep::Ready { elapsed_ms: 0 });
}

#[test]
fn probe_times_out_only_at_deadline() {
    assert_eq!(probe_step(199, 200, false), ProbeStep::Sleep);
    assert_eq!(probe_step(200, 200, false), ProbeStep::TimedOut);
    // once the deadline has passed, even a reachable endpoint is too late
    assert_eq!(probe_step(200, 200, true), ProbeStep::TimedOut);
    assert_eq!(probe_step(150, 200, true), ProbeStep::Ready { elapsed_ms: 150 });
    assert_eq!(POLL_INTERVAL_MS, 50);
}

#[test]
fn probe_timeout_message_exact() {
    assert_eq!(
        timeout_message(200, "main", "/tmp/sock"),
        "Timed out after 200ms waiting for IPC server for window 'main' at '/tmp/sock'"
    );
}

#[test]
fn registry_tracks_one_instance_per_key() {
    let mut reg = Registry::new();
    assert_eq!(reg.get("main"), None);
    reg.insert("main", ProcessInstance { pid: 3, ipc_timeout_ms: 500 });
    assert_eq!(reg.get("main"), Some(ProcessInstance { pid: 3, ipc_timeout_ms: 500 }));
    assert_eq!(reg.len(), 1);
    // replacing keeps a single entry for the key
    reg.insert("main", ProcessInstance { pid: 9, ipc_timeout_ms: 250 });
    assert_eq!(reg.get("main"), Some(ProcessInstance { pid: 9, ipc_timeout_ms: 250 }));
    assert_eq!(reg.len(), 1);
    // other keys are independent
    reg.insert("side", ProcessInstance { pid: 4, ipc_timeout_ms: 100 });
    assert_eq!(reg.len(), 2);
    assert_eq!(reg.get("main"), Some(ProcessInstance { pid: 9, ipc_timeout_ms: 250 }));
    assert_eq!(reg.remove("main"), Some(ProcessInstance { pid: 9, ipc_timeout_ms: 250 }));
    assert_eq!(reg.get("main"), None);
    assert_eq!(reg.get("side"), Some(ProcessInstance { pid: 4, ipc_timeout_ms: 100 }));
}

#[test]
fn terminate_untracked_is_a_quiet_success() {
    let mut reg = Registry::new();
    // nothing tracked: nothing to kill, the call succeeds with no effect
    assert_eq!(terminate_plan(&mut reg, "main"), None);
    assert_eq!(reg.len(), 0);
}

#[test]
fn terminate_tracked_removes_the_entry() {
    let mut reg = Registry::new();
    commit_success(&mut reg, "main", 42, 500);
    assert_eq!(reg.get("main"), Some(ProcessInstance { pid: 42, ipc_timeout_ms: 500 }));
    let planned = terminate_plan(&mut reg, "main");
    assert_eq!(planned, Some(ProcessInstance { pid: 42, ipc_timeout_ms: 500 }));
    assert_eq!(reg.get("main"), None);
}
