//! Readiness probing: the decision rule of the bounded poll loop that
//! waits for the player's IPC endpoint to appear, and the wording of its
//! timeout error. The loop itself performs file-system checks and sleeps,
//! so it runs outside the library and feeds each observation in here.

use vstd::prelude::*;
use vstd::string::StringExecFns;
use crate::strutil::u64_dec;
use crate::strutil::push_u64_dec;

verus! {

/// Time between two readiness checks. The interval is constant on
/// purpose: expected startup latency is small and bounded, so no backoff.
pub const POLL_INTERVAL_MS: u64 = 50;

#[derive(PartialEq, Eq, Structural, Clone, Copy, Debug)]
pub enum ProbeStep {
    /// The endpoint was reachable before the deadline; probing ends.
    Ready { elapsed_ms: u64 },
    /// The deadline was met or passed; probing ends with a timeout error.
    TimedOut,
    /// Not reachable yet and time remains: sleep one interval and retry.
    Sleep,
}

/// What the poll loop does after one observation: time out once the
/// elapsed time meets or exceeds the deadline, succeed when the endpoint
/// is reachable before it, and otherwise sleep and retry.
pub open spec fn probe_decision(elapsed_ms: u64, timeout_ms: u64, reachable: bool) -> ProbeStep {
    if elapsed_ms >= timeout_ms {
        ProbeStep::TimedOut
    } else if reachable {
        ProbeStep::Ready { elapsed_ms }
    } else {
        ProbeStep::Sleep
    }
}

pub fn probe_step(elapsed_ms: u64, timeout_ms: u64, reachable: bool) -> (r: ProbeStep)
    ensures
        r == probe_decision(elapsed_ms, timeout_ms, reachable),
{
    if elapsed_ms >= timeout_ms {
        ProbeStep::TimedOut
    } else if reachable {
        ProbeStep::Ready { elapsed_ms }
    } else {
        ProbeStep::Sleep
    }
}

/// A timeout is decided exactly when the elapsed time has reached the
/// deadline: the probe never reports a timeout early.
pub proof fn law_probe_timeout_not_early(elapsed_ms: u64, timeout_ms: u64, reachable: bool)
    ensures
        (probe_decision(elapsed_ms, timeout_ms, reachable) is TimedOut) <==> elapsed_ms
            >= timeout_ms,
{
}

/// An endpoint reachable at the very first check is reported ready at
/// once, with no elapsed time.
pub proof fn law_probe_immediate_when_reachable(timeout_ms: u64)
    requires
        timeout_ms > 0,
    ensures
        probe_decision(0, timeout_ms, true) == (ProbeStep::Ready { elapsed_ms: 0u64 }),
{
}

/// When checks fall on the poll grid, the first check at or past the
/// deadline comes less than one interval after it: a timeout is reported
/// no earlier than the deadline and no later than one interval past it.
pub proof fn law_probe_deadline_slack(timeout_ms: int, k: int)
    requires
        k >= 1,
        POLL_INTERVAL_MS * (k - 1) < timeout_ms,
        POLL_INTERVAL_MS * k >= timeout_ms,
    ensures
        timeout_ms <= POLL_INTERVAL_MS * k < timeout_ms + POLL_INTERVAL_MS,
{
    assert(POLL_INTERVAL_MS * k == POLL_INTERVAL_MS * (k - 1) + POLL_INTERVAL_MS)
        by (nonlinear_arith);
}

/// The wording of the probe's timeout error: the configured deadline, the
/// window key and the endpoint address it was waiting for.
pub open spec fn timeout_message_spec(
    timeout_ms: u64,
    label: Seq<char>,
    ipc_pipe: Seq<char>,
) -> Seq<char> {
    "Timed out after "@ + u64_dec(timeout_ms as nat) + "ms waiting for IPC server for window '"@
        + label + "' at '"@ + ipc_pipe + "'"@
}

pub fn timeout_message(timeout_ms: u64, label: &str, ipc_pipe: &str) -> (r: String)
    ensures
        r@ == timeout_message_spec(timeout_ms, label@, ipc_pipe@),
{
    let mut s = String::from_str("Timed out after ");
    push_u64_dec(&mut s, timeout_ms);
    s.append("ms waiting for IPC server for window '");
    s.append(label);
    s.append("' at '");
    s.append(ipc_pipe);
    s.append("'");
    proof {
        assert(s@ =~= timeout_message_spec(timeout_ms, label@, ipc_pipe@));
    }
    s
}

} // verus!
