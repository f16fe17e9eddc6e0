//! The process supervisor's decision core. Initialization is a small
//! state machine: look up the window's existing instance, decide between
//! reuse, kill-stale-and-respawn and fresh spawn, drive the readiness
//! probe, and either commit the new instance to the registry or assemble
//! a diagnostic error and have the just-spawned process killed. The
//! surrounding plumbing performs each chosen action (polling an exit
//! status, probing, spawning, killing) and feeds the outcome back in as
//! the next event.

use vstd::prelude::*;
use vstd::string::StringExecFns;
use crate::config::MpvConfig;
use crate::config::audio_only_spec;
use crate::config::parsed_wid_spec;
use crate::config::parsed_wid;
use crate::config::is_audio_only;
use crate::config::build_args_spec;
use crate::config::build_args;
use crate::registry::Registry;
use crate::registry::ProcessInstance;
use crate::strutil::u64_dec;
use crate::strutil::push_u64_dec;

verus! {

// ------------------------------------------------------------------
// Diagnostic message wording
// ------------------------------------------------------------------

/// The attempted command line: the executable path, then each argument,
/// separated by single spaces.
pub open spec fn command_line_spec(path: Seq<char>, args: Seq<Seq<char>>) -> Seq<char>
    decreases args.len(),
{
    if args.len() == 0 {
        path
    } else {
        command_line_spec(path, args.drop_last()) + seq![' '] + args.last()
    }
}

/// Wording of a spawn failure: the root cause, a hint, the window key,
/// and the attempted command line verbatim (executable path and all
/// arguments).
pub open spec fn spawn_failure_message_spec(
    label: Seq<char>,
    path: Seq<char>,
    args: Seq<Seq<char>>,
    os_error: Seq<char>,
) -> Seq<char> {
    "Failed to start mpv: "@ + os_error
        + ". Is mpv installed and in your PATH? The command that failed for window '"@ + label
        + "' was: "@ + command_line_spec(path, args)
}

pub fn spawn_failure_message(label: &str, path: &str, args: &Vec<String>, os_error: &str) -> (r:
    String)
    ensures
        r@ == spawn_failure_message_spec(label@, path@, args.deep_view(), os_error@),
{
    let ghost dv = args.deep_view();
    let mut s = String::from_str("Failed to start mpv: ");
    s.append(os_error);
    s.append(". Is mpv installed and in your PATH? The command that failed for window '");
    s.append(label);
    s.append("' was: ");
    s.append(path);
    let ghost head = "Failed to start mpv: "@ + os_error@
        + ". Is mpv installed and in your PATH? The command that failed for window '"@ + label@
        + "' was: "@;
    proof {
        assert(s@ =~= head + command_line_spec(path@, dv.take(0)));
    }
    let n = args.len();
    let mut i: usize = 0;
    while i < n
        invariant
            n == args@.len(),
            dv == args.deep_view(),
            0 <= i <= n,
            head == "Failed to start mpv: "@ + os_error@
                + ". Is mpv installed and in your PATH? The command that failed for window '"@
                + label@ + "' was: "@,
            s@ == head + command_line_spec(path@, dv.take(i as int)),
        decreases n - i,
    {
        proof {
            assert(dv[i as int] == args@[i as int]@);
        }
        s.append(" ");
        s.append(args[i].as_str());
        proof {
            reveal_strlit(" ");
            assert(dv.take(i as int + 1).drop_last() =~= dv.take(i as int));
            assert(dv.take(i as int + 1).last() == dv[i as int]);
            assert(s@ =~= head + command_line_spec(path@, dv.take(i as int + 1)));
        }
        i = i + 1;
    }
    proof {
        assert(dv.take(n as int) =~= dv);
        assert(s@ =~= spawn_failure_message_spec(label@, path@, dv, os_error@));
    }
    s
}

/// Wording of a kill failure: the process id, the window key and the
/// root cause; the caller is told the process may still be running.
pub open spec fn kill_failure_message_spec(
    pid: u32,
    label: Seq<char>,
    os_error: Seq<char>,
) -> Seq<char> {
    "Failed to kill mpv process (PID: "@ + u64_dec(pid as nat) + ") for window '"@ + label
        + "': "@ + os_error
}

pub fn kill_failure_message(pid: u32, label: &str, os_error: &str) -> (r: String)
    ensures
        r@ == kill_failure_message_spec(pid, label@, os_error@),
{
    let mut s = String::from_str("Failed to kill mpv process (PID: ");
    push_u64_dec(&mut s, pid as u64);
    s.append(") for window '");
    s.append(label);
    s.append("': ");
    s.append(os_error);
    proof {
        assert(s@ =~= kill_failure_message_spec(pid, label@, os_error@));
    }
    s
}

/// One captured output line as it appears in the aggregated diagnostic.
pub open spec fn line_entry_spec(label: Seq<char>, line: Seq<char>) -> Seq<char> {
    "mpv stdout ["@ + label + "] "@ + line + "\n"@
}

/// All captured lines in order, each on its own row.
pub open spec fn log_block_spec(label: Seq<char>, lines: Seq<Seq<char>>) -> Seq<char>
    decreases lines.len(),
{
    if lines.len() == 0 {
        Seq::empty()
    } else {
        log_block_spec(label, lines.drop_last()) + line_entry_spec(label, lines.last())
    }
}

/// Wording of a readiness failure: a header naming the window, every line
/// captured from the player's standard output, then the probe's own
/// timeout description.
pub open spec fn readiness_failure_message_spec(
    label: Seq<char>,
    lines: Seq<Seq<char>>,
    probe_err: Seq<char>,
) -> Seq<char> {
    "mpv startup failed for window '"@ + label + "'. Collected stdout:\n"@ + log_block_spec(
        label,
        lines,
    ) + probe_err
}

pub fn readiness_failure_message(label: &str, lines: &Vec<String>, probe_err: &str) -> (r: String)
    ensures
        r@ == readiness_failure_message_spec(label@, lines.deep_view(), probe_err@),
{
    let ghost dv = lines.deep_view();
    let mut s = String::from_str("mpv startup failed for window '");
    s.append(label);
    s.append("'. Collected stdout:\n");
    let ghost header = "mpv startup failed for window '"@ + label@ + "'. Collected stdout:\n"@;
    proof {
        assert(s@ =~= header + log_block_spec(label@, dv.take(0)));
    }
    let n = lines.len();
    let mut i: usize = 0;
    while i < n
        invariant
            n == lines@.len(),
            dv == lines.deep_view(),
            0 <= i <= n,
            header == "mpv startup failed for window '"@ + label@ + "'. Collected stdout:\n"@,
            s@ == header + log_block_spec(label@, dv.take(i as int)),
        decreases n - i,
    {
        proof {
            assert(dv[i as int] == lines@[i as int]@);
        }
        s.append("mpv stdout [");
        s.append(label);
        s.append("] ");
        s.append(lines[i].as_str());
        s.append("\n");
        proof {
            assert(dv.take(i as int + 1).drop_last() =~= dv.take(i as int));
            assert(dv.take(i as int + 1).last() == dv[i as int]);
            assert(s@ =~= header + log_block_spec(label@, dv.take(i as int + 1)));
        }
        i = i + 1;
    }
    s.append(probe_err);
    proof {
        assert(dv.take(n as int) =~= dv);
        assert(s@ =~= readiness_failure_message_spec(label@, dv, probe_err@));
    }
    s
}

/// Where one captured line sits inside the assembled log block.
pub proof fn lemma_log_block_contains(label: Seq<char>, lines: Seq<Seq<char>>, i: int) -> (k: int)
    requires
        0 <= i < lines.len(),
    ensures
        0 <= k,
        k + lines[i].len() <= log_block_spec(label, lines).len(),
        log_block_spec(label, lines).subrange(k, k + lines[i].len() as int) == lines[i],
    decreases lines.len(),
{
    let blk = log_block_spec(label, lines);
    if i == lines.len() - 1 {
        let prev = log_block_spec(label, lines.drop_last());
        let p1 = "mpv stdout ["@ + label + "] "@;
        let k = prev.len() + p1.len();
        assert(blk.subrange(k as int, k + lines[i].len() as int) =~= lines[i]);
        k as int
    } else {
        let prev = log_block_spec(label, lines.drop_last());
        let k = lemma_log_block_contains(label, lines.drop_last(), i);
        assert(lines.drop_last()[i] == lines[i]);
        assert(blk.subrange(k, k + lines[i].len() as int) =~= prev.subrange(
            k,
            k + lines[i].len() as int,
        ));
        k
    }
}

/// The readiness-failure diagnostic contains every captured line: for
/// each index, a position where that line appears verbatim.
pub proof fn law_failure_message_contains_every_line(
    label: Seq<char>,
    lines: Seq<Seq<char>>,
    probe_err: Seq<char>,
    i: int,
) -> (k: int)
    requires
        0 <= i < lines.len(),
    ensures
        0 <= k,
        k + lines[i].len() <= readiness_failure_message_spec(label, lines, probe_err).len(),
        readiness_failure_message_spec(label, lines, probe_err).subrange(
            k,
            k + lines[i].len() as int,
        ) == lines[i],
{
    let msg = readiness_failure_message_spec(label, lines, probe_err);
    let header = "mpv startup failed for window '"@ + label + "'. Collected stdout:\n"@;
    let k0 = lemma_log_block_contains(label, lines, i);
    let k = header.len() + k0;
    assert(msg.subrange(k as int, k + lines[i].len() as int) =~= log_block_spec(
        label,
        lines,
    ).subrange(k0, k0 + lines[i].len() as int));
    k as int
}

// ------------------------------------------------------------------
// The initialization state machine
// ------------------------------------------------------------------

/// Where an initialization attempt stands; what happened so far is
/// summed up in plain values.
#[derive(PartialEq, Eq, Structural, Clone, Copy, Debug)]
pub enum InitPhase {
    /// An existing instance exists; waiting for its non-blocking exit poll.
    CheckingTracked { pid: u32, stored_timeout_ms: u64 },
    /// The existing process is alive; waiting for its readiness probe.
    ProbingTracked { pid: u32 },
    /// The existing process was unreachable; waiting for it to be killed.
    KillingStale { pid: u32 },
    /// Waiting for the host window's embedding identifier.
    ResolvingWid,
    /// Waiting for the spawn attempt's outcome; remembers which embedding
    /// flag the pending command line was built with (`wid` is meaningful
    /// only when `has_wid` holds), so that a spawn failure can report the
    /// attempted command line verbatim.
    AwaitingSpawn { has_wid: bool, wid: i64 },
    /// A fresh process was spawned; waiting for its readiness probe.
    ProbingNew { pid: u32 },
    /// Initialization is over and succeeded.
    Succeeded { pid: u32, reused: bool },
    /// Initialization is over and failed.
    Failed,
}

/// What the surrounding plumbing observed, handed back to the machine.
pub enum InitEvent {
    ExitPolled { exited: bool },
    ProbeReady { elapsed_ms: u64 },
    ProbeTimedOut { message: String, lines: Vec<String> },
    StaleKilled { ok: bool, os_error: String },
    WidResolved { wid: Option<i64> },
    SpawnedOk { pid: u32 },
    SpawnFailed { os_error: String },
}

/// The closed set of failure kinds an initialization can end with.
#[derive(PartialEq, Eq, Structural, Clone, Copy, Debug)]
pub enum ErrorKind {
    SpawnFailure,
    ReadinessTimeout,
    KillFailure,
}

/// What the surrounding plumbing is to do next.
pub enum InitAction {
    /// Poll the existing process for an exit status, without blocking.
    PollExit { pid: u32 },
    /// Probe the IPC endpoint for readiness within the given budget.
    Probe { timeout_ms: u64 },
    /// Forcibly kill the stale existing process.
    KillStaleProc { pid: u32 },
    /// Resolve the host window's native embedding identifier.
    ResolveWid,
    /// Spawn the player with stdout piped and stderr discarded.
    Spawn { path: String, args: Vec<String> },
    /// Best-effort kill of the just-spawned process, then fail.
    KillSpawnedAndFail { pid: u32, kind: ErrorKind, message: String },
    /// Fail with the given diagnostic.
    FailNow { kind: ErrorKind, message: String },
    /// Commit the instance to the registry and hand off to the listener.
    Finish { pid: u32, reused: bool },
}

#[derive(PartialEq, Eq, Structural, Clone, Copy, Debug)]
pub enum ActionKind {
    PollExit,
    Probe,
    KillStaleProc,
    ResolveWid,
    Spawn,
    KillSpawnedAndFail,
    FailNow,
    Finish,
}

pub open spec fn kind_of(a: InitAction) -> ActionKind {
    match a {
        InitAction::PollExit { .. } => ActionKind::PollExit,
        InitAction::Probe { .. } => ActionKind::Probe,
        InitAction::KillStaleProc { .. } => ActionKind::KillStaleProc,
        InitAction::ResolveWid => ActionKind::ResolveWid,
        InitAction::Spawn { .. } => ActionKind::Spawn,
        InitAction::KillSpawnedAndFail { .. } => ActionKind::KillSpawnedAndFail,
        InitAction::FailNow { .. } => ActionKind::FailNow,
        InitAction::Finish { .. } => ActionKind::Finish,
    }
}

/// One initialization attempt for one window: its key, the endpoint
/// address the player is told to serve, the caller's configuration, and
/// where the attempt stands.
pub struct InitMachine {
    pub label: String,
    pub ipc_pipe: String,
    pub config: MpvConfig,
    pub phase: InitPhase,
}

/// The phase entered when a fresh spawn is due: spawn at once when the
/// caller supplied an embedding identifier or asked for audio-only
/// operation, otherwise resolve the window handle first.
pub open spec fn spawn_entry_phase(m: InitMachine) -> InitPhase {
    if parsed_wid_spec(m.config.args.deep_view()) is Some || audio_only_spec(
        m.config.args.deep_view(),
    ) {
        InitPhase::AwaitingSpawn { has_wid: false, wid: 0 }
    } else {
        InitPhase::ResolvingWid
    }
}

/// The argument list of the spawn the machine is waiting on.
pub open spec fn pending_spawn_args(m: InitMachine) -> Seq<Seq<char>> {
    match m.phase {
        InitPhase::AwaitingSpawn { has_wid, wid } => build_args_spec(
            m.ipc_pipe@,
            if has_wid {
                Some(wid)
            } else {
                None
            },
            m.config.args.deep_view(),
        ),
        _ => Seq::empty(),
    }
}

pub open spec fn spawn_entry_kind(m: InitMachine) -> ActionKind {
    if spawn_entry_phase(m) == InitPhase::ResolvingWid {
        ActionKind::ResolveWid
    } else {
        ActionKind::Spawn
    }
}

/// The action a fresh-spawn entry emits: either resolve the embedding
/// identifier, or spawn with no added embedding flag (when the caller
/// supplied one it is already among the caller arguments).
pub open spec fn spawn_entry_action_ok(m: InitMachine, r: InitAction) -> bool {
    if spawn_entry_phase(m) == InitPhase::ResolvingWid {
        r == InitAction::ResolveWid
    } else {
        r matches InitAction::Spawn { path, args } && path@ == m.config.path@
            && args.deep_view() == build_args_spec(
            m.ipc_pipe@,
            None,
            m.config.args.deep_view(),
        )
    }
}

/// Which events a phase is prepared to receive.
pub open spec fn phase_expects(phase: InitPhase, ev: InitEvent) -> bool {
    match (phase, ev) {
        (InitPhase::CheckingTracked { .. }, InitEvent::ExitPolled { .. }) => true,
        (InitPhase::ProbingTracked { .. }, InitEvent::ProbeReady { .. }) => true,
        (InitPhase::ProbingTracked { .. }, InitEvent::ProbeTimedOut { .. }) => true,
        (InitPhase::KillingStale { .. }, InitEvent::StaleKilled { .. }) => true,
        (InitPhase::ResolvingWid, InitEvent::WidResolved { .. }) => true,
        (InitPhase::AwaitingSpawn { .. }, InitEvent::SpawnedOk { .. }) => true,
        (InitPhase::AwaitingSpawn { .. }, InitEvent::SpawnFailed { .. }) => true,
        (InitPhase::ProbingNew { .. }, InitEvent::ProbeReady { .. }) => true,
        (InitPhase::ProbingNew { .. }, InitEvent::ProbeTimedOut { .. }) => true,
        _ => false,
    }
}

/// The machine's transition relation on phases.
pub open spec fn step_phase(m: InitMachine, ev: InitEvent) -> InitPhase {
    match (m.phase, ev) {
        (InitPhase::CheckingTracked { pid, .. }, InitEvent::ExitPolled { exited }) => if !exited {
            InitPhase::ProbingTracked { pid }
        } else {
            spawn_entry_phase(m)
        },
        (InitPhase::ProbingTracked { pid }, InitEvent::ProbeReady { .. }) => InitPhase::Succeeded {
            pid,
            reused: true,
        },
        (InitPhase::ProbingTracked { pid }, InitEvent::ProbeTimedOut { .. }) => (
        InitPhase::KillingStale { pid }),
        (InitPhase::KillingStale { .. }, InitEvent::StaleKilled { ok, .. }) => if ok {
            spawn_entry_phase(m)
        } else {
            InitPhase::Failed
        },
        (InitPhase::ResolvingWid, InitEvent::WidResolved { wid }) => match wid {
            Some(w) => InitPhase::AwaitingSpawn { has_wid: true, wid: w },
            None => InitPhase::AwaitingSpawn { has_wid: false, wid: 0 },
        },
        (InitPhase::AwaitingSpawn { .. }, InitEvent::SpawnedOk { pid }) => InitPhase::ProbingNew {
            pid,
        },
        (InitPhase::AwaitingSpawn { .. }, InitEvent::SpawnFailed { .. }) => InitPhase::Failed,
        (InitPhase::ProbingNew { pid }, InitEvent::ProbeReady { .. }) => InitPhase::Succeeded {
            pid,
            reused: false,
        },
        (InitPhase::ProbingNew { .. }, InitEvent::ProbeTimedOut { .. }) => InitPhase::Failed,
        _ => m.phase,
    }
}

/// The kind of action each transition emits.
pub open spec fn step_kind(m: InitMachine, ev: InitEvent) -> ActionKind {
    match (m.phase, ev) {
        (InitPhase::CheckingTracked { .. }, InitEvent::ExitPolled { exited }) => if !exited {
            ActionKind::Probe
        } else {
            spawn_entry_kind(m)
        },
        (InitPhase::ProbingTracked { .. }, InitEvent::ProbeReady { .. }) => ActionKind::Finish,
        (InitPhase::ProbingTracked { .. }, InitEvent::ProbeTimedOut { .. }) => (
        ActionKind::KillStaleProc),
        (InitPhase::KillingStale { .. }, InitEvent::StaleKilled { ok, .. }) => if ok {
            spawn_entry_kind(m)
        } else {
            ActionKind::FailNow
        },
        (InitPhase::ResolvingWid, InitEvent::WidResolved { .. }) => ActionKind::Spawn,
        (InitPhase::AwaitingSpawn { .. }, InitEvent::SpawnedOk { .. }) => ActionKind::Probe,
        (InitPhase::AwaitingSpawn { .. }, InitEvent::SpawnFailed { .. }) => ActionKind::FailNow,
        (InitPhase::ProbingNew { .. }, InitEvent::ProbeReady { .. }) => ActionKind::Finish,
        (InitPhase::ProbingNew { .. }, InitEvent::ProbeTimedOut { .. }) => (
        ActionKind::KillSpawnedAndFail),
        _ => ActionKind::FailNow,
    }
}

/// The phase an attempt begins in, given what the registry tracks.
pub open spec fn start_phase(m: InitMachine, existing: Option<ProcessInstance>) -> InitPhase {
    match existing {
        Some(inst) => InitPhase::CheckingTracked {
            pid: inst.pid,
            stored_timeout_ms: inst.ipc_timeout_ms,
        },
        None => spawn_entry_phase(m),
    }
}

impl InitMachine {
    /// Begins an initialization attempt. With an existing instance the
    /// first step is its non-blocking exit poll; with none, the fresh
    /// spawn path starts at once.
    pub fn start(label: &str, ipc_pipe: &str, config: MpvConfig, existing: Option<
        ProcessInstance,
    >) -> (r: (InitMachine, InitAction))
        ensures
            r.0.label@ == label@,
            r.0.ipc_pipe@ == ipc_pipe@,
            r.0.config == config,
            r.0.phase == start_phase(r.0, existing),
            existing matches Some(inst) ==> r.1 == (InitAction::PollExit { pid: inst.pid }),
            existing is None ==> spawn_entry_action_ok(r.0, r.1),
    {
        let mut m = InitMachine {
            label: String::from_str(label),
            ipc_pipe: String::from_str(ipc_pipe),
            config,
            phase: InitPhase::Failed,
        };
        match existing {
            Some(inst) => {
                m.phase = InitPhase::CheckingTracked {
                    pid: inst.pid,
                    stored_timeout_ms: inst.ipc_timeout_ms,
                };
                let a = InitAction::PollExit { pid: inst.pid };
                (m, a)
            },
            None => {
                let (p, a) = m.enter_spawn();
                m.phase = p;
                (m, a)
            },
        }
    }

    /// The fresh-spawn entry: spawn at once when an explicit embedding
    /// identifier or audio-only operation makes resolution unnecessary,
    /// else ask for the window handle first.
    fn enter_spawn(&self) -> (r: (InitPhase, InitAction))
        ensures
            r.0 == spawn_entry_phase(*self),
            kind_of(r.1) == spawn_entry_kind(*self),
            spawn_entry_action_ok(*self, r.1),
    {
        let parsed = parsed_wid(&self.config.args);
        let audio = is_audio_only(&self.config.args);
        if parsed.is_some() || audio {
            let args = build_args(self.ipc_pipe.as_str(), None, &self.config.args);
            let p = InitPhase::AwaitingSpawn { has_wid: false, wid: 0 };
            (p, InitAction::Spawn { path: self.config.path.clone(), args })
        } else {
            (InitPhase::ResolvingWid, InitAction::ResolveWid)
        }
    }

    /// Feeds one observed outcome in and returns the next action.
    pub fn step(&mut self, ev: InitEvent) -> (r: InitAction)
        requires
            phase_expects(old(self).phase, ev),
        ensures
            final(self).label == old(self).label,
            final(self).ipc_pipe == old(self).ipc_pipe,
            final(self).config == old(self).config,
            final(self).phase == step_phase(*old(self), ev),
            kind_of(r) == step_kind(*old(self), ev),
            old(self).phase matches InitPhase::CheckingTracked { pid: _, stored_timeout_ms } ==> (
            ev matches InitEvent::ExitPolled { exited } ==> if !exited {
                r == (InitAction::Probe { timeout_ms: stored_timeout_ms })
            } else {
                spawn_entry_action_ok(*old(self), r)
            }),
            old(self).phase matches InitPhase::ProbingTracked { pid } ==> ((ev matches
            InitEvent::ProbeReady { .. } ==> r == (InitAction::Finish { pid, reused: true })) && (
            ev matches InitEvent::ProbeTimedOut { .. } ==> r == (InitAction::KillStaleProc {
                pid,
            }))),
            old(self).phase matches InitPhase::KillingStale { pid } ==> (ev matches
            InitEvent::StaleKilled { ok, os_error } ==> if ok {
                spawn_entry_action_ok(*old(self), r)
            } else {
                r matches InitAction::FailNow { kind, message } && kind == ErrorKind::KillFailure
                    && message@ == kill_failure_message_spec(pid, old(self).label@, os_error@)
            }),
            old(self).phase == InitPhase::ResolvingWid ==> (ev matches InitEvent::WidResolved {
                wid,
            } ==> (r matches InitAction::Spawn { path, args } && path@ == old(self).config.path@
                && args.deep_view() == build_args_spec(
                old(self).ipc_pipe@,
                wid,
                old(self).config.args.deep_view(),
            ))),
            old(self).phase matches InitPhase::AwaitingSpawn { .. } ==> ((ev matches
            InitEvent::SpawnedOk { .. } ==> r == (InitAction::Probe {
                timeout_ms: old(self).config.ipc_timeout_ms,
            })) && (ev matches InitEvent::SpawnFailed { os_error } ==> (r matches
            InitAction::FailNow { kind, message } && kind == ErrorKind::SpawnFailure && message@
                == spawn_failure_message_spec(
                old(self).label@,
                old(self).config.path@,
                pending_spawn_args(*old(self)),
                os_error@,
            )))),
            old(self).phase matches InitPhase::ProbingNew { pid } ==> ((ev matches
            InitEvent::ProbeReady { .. } ==> r == (InitAction::Finish { pid, reused: false })) && (
            ev matches InitEvent::ProbeTimedOut { message, lines } ==> (r matches
            InitAction::KillSpawnedAndFail { pid: kp, kind, message: fm } && kp == pid && kind
                == ErrorKind::ReadinessTimeout && fm@ == readiness_failure_message_spec(
                old(self).label@,
                lines.deep_view(),
                message@,
            )))),
    {
        let ph = self.phase;
        match ev {
            InitEvent::ExitPolled { exited } => match ph {
                InitPhase::CheckingTracked { pid, stored_timeout_ms } => {
                    if !exited {
                        self.phase = InitPhase::ProbingTracked { pid };
                        InitAction::Probe { timeout_ms: stored_timeout_ms }
                    } else {
                        let (p, a) = self.enter_spawn();
                        self.phase = p;
                        a
                    }
                },
                _ => vstd::pervasive::unreached(),
            },
            InitEvent::ProbeReady { elapsed_ms: _ } => match ph {
                InitPhase::ProbingTracked { pid } => {
                    self.phase = InitPhase::Succeeded { pid, reused: true };
                    InitAction::Finish { pid, reused: true }
                },
                InitPhase::ProbingNew { pid } => {
                    self.phase = InitPhase::Succeeded { pid, reused: false };
                    InitAction::Finish { pid, reused: false }
                },
                _ => vstd::pervasive::unreached(),
            },
            InitEvent::ProbeTimedOut { message, lines } => match ph {
                InitPhase::ProbingTracked { pid } => {
                    self.phase = InitPhase::KillingStale { pid };
                    InitAction::KillStaleProc { pid }
                },
                InitPhase::ProbingNew { pid } => {
                    let fm = readiness_failure_message(
                        self.label.as_str(),
                        &lines,
                        message.as_str(),
                    );
                    self.phase = InitPhase::Failed;
                    InitAction::KillSpawnedAndFail {
                        pid,
                        kind: ErrorKind::ReadinessTimeout,
                        message: fm,
                    }
                },
                _ => vstd::pervasive::unreached(),
            },
            InitEvent::StaleKilled { ok, os_error } => match ph {
                InitPhase::KillingStale { pid } => {
                    if ok {
                        let (p, a) = self.enter_spawn();
                        self.phase = p;
                        a
                    } else {
                        let fm = kill_failure_message(pid, self.label.as_str(), os_error.as_str());
                        self.phase = InitPhase::Failed;
                        InitAction::FailNow { kind: ErrorKind::KillFailure, message: fm }
                    }
                },
                _ => vstd::pervasive::unreached(),
            },
            InitEvent::WidResolved { wid } => match ph {
                InitPhase::ResolvingWid => {
                    let args = build_args(self.ipc_pipe.as_str(), wid, &self.config.args);
                    self.phase = match wid {
                        Some(w) => InitPhase::AwaitingSpawn { has_wid: true, wid: w },
                        None => InitPhase::AwaitingSpawn { has_wid: false, wid: 0 },
                    };
                    InitAction::Spawn { path: self.config.path.clone(), args }
                },
                _ => vstd::pervasive::unreached(),
            },
            InitEvent::SpawnedOk { pid } => match ph {
                InitPhase::AwaitingSpawn { .. } => {
                    self.phase = InitPhase::ProbingNew { pid };
                    InitAction::Probe { timeout_ms: self.config.ipc_timeout_ms }
                },
                _ => vstd::pervasive::unreached(),
            },
            InitEvent::SpawnFailed { os_error } => match ph {
                InitPhase::AwaitingSpawn { has_wid, wid } => {
                    let wid_attempted: Option<i64> = if has_wid {
                        Some(wid)
                    } else {
                        None
                    };
                    let args = build_args(self.ipc_pipe.as_str(), wid_attempted, &self.config.args);
                    let fm = spawn_failure_message(
                        self.label.as_str(),
                        self.config.path.as_str(),
                        &args,
                        os_error.as_str(),
                    );
                    self.phase = InitPhase::Failed;
                    InitAction::FailNow { kind: ErrorKind::SpawnFailure, message: fm }
                },
                _ => vstd::pervasive::unreached(),
            },
        }
    }
}

// ------------------------------------------------------------------
// Registry commits
// ------------------------------------------------------------------

/// Records a successful initialization: the registry tracks the new
/// instance under the window key, replacing any prior entry.
pub fn commit_success(registry: &mut Registry, label: &str, pid: u32, ipc_timeout_ms: u64)
    requires
        old(registry).wf(),
    ensures
        final(registry).wf(),
        final(registry)@ == old(registry)@.insert(
            label@,
            (ProcessInstance { pid, ipc_timeout_ms }),
        ),
        final(registry)@.contains_key(label@),
        final(registry)@[label@] == (ProcessInstance { pid, ipc_timeout_ms }),
{
    registry.insert(label, ProcessInstance { pid, ipc_timeout_ms });
}

/// Begins termination: removes the existing instance for the key, if any.
/// With nothing existing the call is complete and nothing is to be done;
/// with an instance, the caller kills and reaps the returned process.
pub fn terminate_plan(registry: &mut Registry, label: &str) -> (r: Option<ProcessInstance>)
    requires
        old(registry).wf(),
    ensures
        final(registry).wf(),
        (r is Some) <==> old(registry)@.contains_key(label@),
        r matches Some(inst) ==> inst == old(registry)@[label@],
        final(registry)@ == old(registry)@.remove(label@),
        r is None ==> final(registry)@ == old(registry)@,
{
    let r = registry.remove(label);
    proof {
        if r is None {
            assert(old(registry)@.remove(label@) =~= old(registry)@);
        }
    }
    r
}

// ------------------------------------------------------------------
// Laws of the supervisor
// ------------------------------------------------------------------

/// After a successful commit the registry holds exactly the committed
/// instance for the key, and every other key is untouched.
pub proof fn law_commit_one_instance_per_key(
    m: Map<Seq<char>, ProcessInstance>,
    label: Seq<char>,
    inst: ProcessInstance,
    other: Seq<char>,
)
    ensures
        m.insert(label, inst).contains_key(label),
        m.insert(label, inst)[label] == inst,
        other != label ==> (m.insert(label, inst).contains_key(other) <==> m.contains_key(other)),
        other != label && m.contains_key(other) ==> m.insert(label, inst)[other] == m[other],
{
}

/// An existing process that has not exited and answers its probe is
/// reused: the machine reaches success with the same process id and
/// never emits a spawn.
pub proof fn law_healthy_process_reused(m: InitMachine, pid: u32, stored: u64, elapsed_ms: u64)
    requires
        m.phase == (InitPhase::CheckingTracked { pid, stored_timeout_ms: stored }),
    ensures
        ({
            let ev1 = InitEvent::ExitPolled { exited: false };
            let m1 = InitMachine { phase: step_phase(m, ev1), ..m };
            let ev2 = InitEvent::ProbeReady { elapsed_ms };
            &&& step_kind(m, ev1) != ActionKind::Spawn
            &&& m1.phase == (InitPhase::ProbingTracked { pid })
            &&& step_kind(m1, ev2) != ActionKind::Spawn
            &&& step_phase(m1, ev2) == (InitPhase::Succeeded { pid, reused: true })
        }),
{
}

/// A tracked process that has exited leads to the fresh-spawn path, and
/// the machine then succeeds with the newly spawned process id.
pub proof fn law_stale_process_respawned(
    m: InitMachine,
    pid: u32,
    stored: u64,
    new_pid: u32,
    elapsed_ms: u64,
    has_wid: bool,
    wid: i64,
)
    requires
        m.phase == (InitPhase::CheckingTracked { pid, stored_timeout_ms: stored }),
    ensures
        ({
            let p1 = step_phase(m, InitEvent::ExitPolled { exited: true });
            (p1 matches InitPhase::AwaitingSpawn { .. }) || p1 == InitPhase::ResolvingWid
        }),
        forall|w: Option<i64>|
            #[trigger] step_phase(
                (InitMachine { phase: InitPhase::ResolvingWid, ..m }),
                InitEvent::WidResolved { wid: w },
            ) matches InitPhase::AwaitingSpawn { .. },
        step_phase(
            (InitMachine { phase: (InitPhase::AwaitingSpawn { has_wid, wid }), ..m }),
            InitEvent::SpawnedOk { pid: new_pid },
        ) == (InitPhase::ProbingNew { pid: new_pid }),
        step_phase(
            (InitMachine { phase: (InitPhase::ProbingNew { pid: new_pid }), ..m }),
            InitEvent::ProbeReady { elapsed_ms },
        ) == (InitPhase::Succeeded { pid: new_pid, reused: false }),
{
}

/// After a fresh-spawn success the registry holds, under the window key,
/// exactly the instance whose process id the spawn reported, with the
/// call's configured timeout; every other key is untouched. (Whether the
/// OS process is still alive afterwards is an outside observation the
/// registry model cannot carry.)
pub proof fn law_fresh_success_registers_new_instance(
    m: InitMachine,
    reg: Map<Seq<char>, ProcessInstance>,
    label: Seq<char>,
    new_pid: u32,
    elapsed_ms: u64,
    other: Seq<char>,
)
    requires
        m.phase matches InitPhase::AwaitingSpawn { .. },
    ensures
        ({
            let m1 = InitMachine {
                phase: step_phase(m, InitEvent::SpawnedOk { pid: new_pid }),
                ..m
            };
            step_phase(m1, InitEvent::ProbeReady { elapsed_ms }) == (InitPhase::Succeeded {
                pid: new_pid,
                reused: false,
            })
        }),
        ({
            let inst = ProcessInstance { pid: new_pid, ipc_timeout_ms: m.config.ipc_timeout_ms };
            let reg2 = reg.insert(label, inst);
            &&& reg2.contains_key(label)
            &&& reg2[label] == inst
            &&& reg2[label].ipc_timeout_ms == m.config.ipc_timeout_ms
            &&& (other != label ==> (reg2.contains_key(other) <==> reg.contains_key(other)))
            &&& (other != label && reg.contains_key(other) ==> reg2[other] == reg[other])
        }),
{
}

/// A readiness timeout on a freshly spawned process always ends the
/// attempt with a kill of that process and a failure.
pub proof fn law_probe_timeout_kills_spawned(m: InitMachine, pid: u32, ev: InitEvent)
    requires
        m.phase == (InitPhase::ProbingNew { pid }),
        ev matches InitEvent::ProbeTimedOut { .. },
    ensures
        step_kind(m, ev) == ActionKind::KillSpawnedAndFail,
        step_phase(m, ev) == InitPhase::Failed,
{
}

} // verus!
