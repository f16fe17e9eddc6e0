use mpv_supervisor::config::build_args;
use mpv_supervisor::config::find_wid_arg;
use mpv_supervisor::config::is_audio_only;
use mpv_supervisor::config::parsed_wid;
use mpv_supervisor::config::MpvConfig;
use mpv_supervisor::registry::ProcessInstance;
use mpv_supervisor::registry::Registry;
use mpv_supervisor::supervisor::commit_success;
use mpv_supervisor::supervisor::kill_failure_message;
use mpv_supervisor::supervisor::readiness_failure_message;
use mpv_supervisor::supervisor::spawn_failure_message;
use mpv_supervisor::supervisor::ErrorKind;
use mpv_supervisor::supervisor::InitAction;
use mpv_supervisor::supervisor::InitEvent;
use mpv_supervisor::supervisor::InitMachine;
use mpv_supervisor::supervisor::InitPhase;

fn config_with_args(args: Vec<String>) -> MpvConfig {
    MpvConfig {
        path: "mpv".to_string(),
        args,
        ipc_timeout_ms: 500,
        show_mpv_output: false,
        observed_properties: vec!["pause".to_string()],
    }
}

#[test]
fn audio_only_detection() {
    assert!(is_audio_only(&vec!["--no-video".to_string()]));
    assert!(is_audio_only(&vec!["--shuffle".to_string(), "--video=no".to_string()]));
    assert!(is_audio_only(&vec!["--vid=no".to_string()]));
    let empty: Vec<String> = vec![];
    assert!(!is_audio_only(&empty));
    assert!(!is_audio_only(&vec!["--no-video=yes".to_string()]));
}

#[test]
fn wid_argument_extraction() {
    let empty: Vec<String> = vec![];
    assert_eq!(find_wid_arg(&empty), None);
    assert_eq!(find_wid_arg(&vec!["--wid=42".to_string()]), Some("42".to_string()));
    // only the first --wid= argument counts
    let args = vec!["--wid=bogus".to_string(), "--wid=7".to_string()];
    assert_eq!(find_wid_arg(&args), Some("bogus".to_string()));
    assert_eq!(parsed_wid(&args), None);
    assert_eq!(parsed_wid(&vec!["--wid=-3".to_string()]), Some(-3));
    assert_eq!(parsed_wid(&vec!["--mute".to_string()]), None);
}

#[test]
fn build_args_order_and_wid() {
    let extra = vec!["--mute".to_string()];
    let args = build_args("/tmp/sock", Some(42), &extra);
    assert_eq!(
        args,
        vec![
            "--input-ipc-server=/tmp/sock".to_string(),
            "--profile=libmpv".to_string(),
            "--wid=42".to_string(),
            "--mute".to_string(),
        ]
    );
    let args = build_args("/tmp/sock", None, &extra);
    assert_eq!(
        args,
        vec![
            "--input-ipc-server=/tmp/sock".to_string(),
            "--profile=libmpv".to_string(),
            "--mute".to_string(),
        ]
    );
}

#[test]
fn failure_message_wording() {
    let attempted = vec!["--input-ipc-server=/tmp/sock".to_string(), "--mute".to_string()];
    assert_eq!(
        spawn_failure_message("main", "mpv", &attempted, "No such file"),
        "Failed to start mpv: No such file. Is mpv installed and in your PATH? \
         The command that failed for window 'main' was: \
         mpv --input-ipc-server=/tmp/sock --mute"
    );
    let no_args: Vec<String> = vec![];
    assert_eq!(
        spawn_failure_message("main", "/usr/bin/mpv", &no_args, "boom"),
        "Failed to start mpv: boom. Is mpv installed and in your PATH? \
         The command that failed for window 'main' was: /usr/bin/mpv"
    );
    assert_eq!(
        kill_failure_message(7, "main", "permission denied"),
        "Failed to kill mpv process (PID: 7) for window 'main': permission denied"
    );
    let lines = vec!["first".to_string(), "second".to_string()];
    let msg = readiness_failure_message("main", &lines, "probe timed out");
    assert_eq!(
        msg,
        "mpv startup failed for window 'main'. Collected stdout:\n\
         mpv stdout [main] first\n\
         mpv stdout [main] second\n\
         probe timed out"
    );
}

#[test]
fn fresh_spawn_happy_path() {
    let config = config_with_args(vec!["--mute".to_string()]);
    let (mut m, action) = InitMachine::start("main", "/tmp/sock", config, None);
    // no explicit wid and not audio-only: the window handle is resolved first
    assert!(matches!(action, InitAction::ResolveWid));
    assert_eq!(m.phase, InitPhase::ResolvingWid);

    let action = m.step(InitEvent::WidResolved { wid: Some(99) });
    match action {
        InitAction::Spawn { path, args } => {
            assert_eq!(path, "mpv");
            assert_eq!(
                args,
                vec![
                    "--input-ipc-server=/tmp/sock".to_string(),
                    "--profile=libmpv".to_string(),
                    "--wid=99".to_string(),
                    "--mute".to_string(),
                ]
            );
        }
        _ => panic!("expected a spawn"),
    }
    assert_eq!(m.phase, InitPhase::AwaitingSpawn { has_wid: true, wid: 99 });

    let action = m.step(InitEvent::SpawnedOk { pid: 7 });
    assert!(matches!(action, InitAction::Probe { timeout_ms: 500 }));

    let action = m.step(InitEvent::ProbeReady { elapsed_ms: 12 });
    assert!(matches!(action, InitAction::Finish { pid: 7, reused: false }));
    assert_eq!(m.phase, InitPhase::Succeeded { pid: 7, reused: false });

    // the commit tracks exactly this process for the window
    let mut reg = Registry::new();
    commit_success(&mut reg, "main", 7, 500);
    assert_eq!(reg.get("main"), Some(ProcessInstance { pid: 7, ipc_timeout_ms: 500 }));
    assert_eq!(reg.len(), 1);
}

#[test]
fn explicit_wid_skips_resolution() {
    let config = config_with_args(vec!["--wid=42".to_string()]);
    let (m, action) = InitMachine::start("main", "/tmp/sock", config, None);
    match action {
        InitAction::Spawn { path: _, args } => {
            // no second --wid is added; the caller's own flag comes last
            assert_eq!(
                args,
                vec![
                    "--input-ipc-server=/tmp/sock".to_string(),
                    "--profile=libmpv".to_string(),
                    "--wid=42".to_string(),
                ]
            );
        }
        _ => panic!("expected an immediate spawn"),
    }
    assert_eq!(m.phase, InitPhase::AwaitingSpawn { has_wid: false, wid: 0 });
}

#[test]
fn audio_only_skips_resolution() {
    let config = config_with_args(vec!["--no-video".to_string()]);
    let (m, action) = InitMachine::start("main", "/tmp/sock", config, None);
    match action {
        InitAction::Spawn { path: _, args } => {
            assert_eq!(
                args,
                vec![
                    "--input-ipc-server=/tmp/sock".to_string(),
                    "--profile=libmpv".to_string(),
                    "--no-video".to_string(),
                ]
            );
        }
        _ => panic!("expected an immediate spawn"),
    }
    assert_eq!(m.phase, InitPhase::AwaitingSpawn { has_wid: false, wid: 0 });
}

#[test]
fn healthy_tracked_process_is_reused() {
    let config = config_with_args(vec![]);
    let existing = ProcessInstance { pid: 3, ipc_timeout_ms: 250 };
    let (mut m, action) = InitMachine::start("main", "/tmp/sock", config, Some(existing));
    assert!(matches!(action, InitAction::PollExit { pid: 3 }));

    let action = m.step(InitEvent::ExitPolled { exited: false });
    // the probe runs with the tracked instance's own stored timeout
    assert!(matches!(action, InitAction::Probe { timeout_ms: 250 }));

    let action = m.step(InitEvent::ProbeReady { elapsed_ms: 1 });
    // same pid, no spawn happened anywhere on this path
    assert!(matches!(action, InitAction::Finish { pid: 3, reused: true }));
    assert_eq!(m.phase, InitPhase::Succeeded { pid: 3, reused: true });
}

#[test]
fn exited_tracked_process_is_respawned() {
    let config = config_with_args(vec!["--no-video".to_string()]);
    let existing = ProcessInstance { pid: 3, ipc_timeout_ms: 250 };
    let (mut m, action) = InitMachine::start("main", "/tmp/sock", config, Some(existing));
    assert!(matches!(action, InitAction::PollExit { pid: 3 }));

    let action = m.step(InitEvent::ExitPolled { exited: true });
    assert!(matches!(action, InitAction::Spawn { .. }));

    let action = m.step(InitEvent::SpawnedOk { pid: 8 });
    assert!(matches!(action, InitAction::Probe { timeout_ms: 500 }));
    let action = m.step(InitEvent::ProbeReady { elapsed_ms: 30 });
    assert!(matches!(action, InitAction::Finish { pid: 8, reused: false }));

    // the registry's pid changes once the new instance is committed
    let mut reg = Registry::new();
    commit_success(&mut reg, "main", 3, 250);
    commit_success(&mut reg, "main", 8, 500);
    assert_eq!(reg.get("main"), Some(ProcessInstance { pid: 8, ipc_timeout_ms: 500 }));
    assert_eq!(reg.len(), 1);
}

#[test]
fn unreachable_tracked_process_is_killed_then_respawned() {
    let config = config_with_args(vec!["--vid=no".to_string()]);
    let existing = ProcessInstance { pid: 3, ipc_timeout_ms: 250 };
    let (mut m, _) = InitMachine::start("main", "/tmp/sock", config, Some(existing));
    let _ = m.step(InitEvent::ExitPolled { exited: false });
    let action = m.step(InitEvent::ProbeTimedOut {
        message: "probe timed out".to_string(),
        lines: vec![],
    });
    assert!(matches!(action, InitAction::KillStaleProc { pid: 3 }));
    let action = m.step(InitEvent::StaleKilled { ok: true, os_error: String::new() });
    assert!(matches!(action, InitAction::Spawn { .. }));
}

#[test]
fn kill_failure_of_stale_process_is_fatal() {
    let config = config_with_args(vec![]);
    let existing = ProcessInstance { pid: 3, ipc_timeout_ms: 250 };
    let (mut m, _) = InitMachine::start("main", "/tmp/sock", config, Some(existing));
    let _ = m.step(InitEvent::ExitPolled { exited: false });
    let _ = m.step(InitEvent::ProbeTimedOut { message: "late".to_string(), lines: vec![] });
    let action = m.step(InitEvent::StaleKilled {
        ok: false,
        os_error: "operation not permitted".to_string(),
    });
    match action {
        InitAction::FailNow { kind, message } => {
            assert_eq!(kind, ErrorKind::KillFailure);
            assert_eq!(
                message,
                "Failed to kill mpv process (PID: 3) for window 'main': operation not permitted"
            );
        }
        _ => panic!("expected a fatal failure"),
    }
    assert_eq!(m.phase, InitPhase::Failed);
}

#[test]
fn spawn_failure_is_fatal() {
    let config = config_with_args(vec!["--no-video".to_string()]);
    let (mut m, _) = InitMachine::start("main", "/tmp/sock", config, None);
    let action = m.step(InitEvent::SpawnFailed { os_error: "No such file".to_string() });
    match action {
        InitAction::FailNow { kind, message } => {
            assert_eq!(kind, ErrorKind::SpawnFailure);
            assert_eq!(
                message,
                "Failed to start mpv: No such file. Is mpv installed and in your PATH? \
                 The command that failed for window 'main' was: \
                 mpv --input-ipc-server=/tmp/sock --profile=libmpv --no-video"
            );
        }
        _ => panic!("expected a fatal failure"),
    }
}

#[test]
fn readiness_timeout_reports_all_captured_output_and_kills() {
    let config = config_with_args(vec!["--no-video".to_string()]);
    let (mut m, _) = InitMachine::start("main", "/tmp/sock", config, None);
    let _ = m.step(InitEvent::SpawnedOk { pid: 9 });
    let captured = vec!["[cplayer] loading config".to_string(), "audio device opened".to_string()];
    let action = m.step(InitEvent::ProbeTimedOut {
        message: "Timed out after 500ms waiting for IPC server for window 'main' at '/tmp/sock'"
            .to_string(),
        lines: captured,
    });
    match action {
        InitAction::KillSpawnedAndFail { pid, kind, message } => {
            assert_eq!(pid, 9);
            assert_eq!(kind, ErrorKind::ReadinessTimeout);
            // every captured line appears in the diagnostic
            assert!(message.contains("[cplayer] loading config"));
            assert!(message.contains("audio device opened"));
            assert!(message.contains("mpv startup failed for window 'main'"));
            assert!(message.contains("Timed out after 500ms"));
        }
        _ => panic!("expected the spawned process to be killed"),
    }
    assert_eq!(m.phase, InitPhase::Failed);
}
