use vstd::prelude::*;

use crate::identity::BackendIdentity;
use crate::registry::ProcessDescriptor;

verus! {

/// The operating-system mechanism used to stop a process.
#[derive(Clone, Copy, Debug, PartialEq, Eq, Structural)]
pub enum Mechanism {
    /// A forceful signal sent to one process identifier.
    Signal,
    /// A name-based termination tool, given the exact process name.
    ByName,
}

/// What to ask the operating system to stop.
#[derive(Clone, Debug)]
pub enum KillRequest {
    Signal { pid: u32 },
    ByName { name: String },
}

/// Builds the request that stops `target` with mechanism `m`.
pub fn kill_request(m: Mechanism, identity: &BackendIdentity, target: ProcessDescriptor) -> (r:
    KillRequest)
    ensures
        m == Mechanism::Signal ==> r == (KillRequest::Signal { pid: target.pid }),
        m == Mechanism::ByName ==> r is ByName && r->ByName_name@ == identity.process_name@,
{
    match m {
        Mechanism::Signal => KillRequest::Signal { pid: target.pid },
        Mechanism::ByName => KillRequest::ByName { name: identity.process_name.clone() },
    }
}

/// How the termination tool or system call ended.
#[derive(Clone, Copy, Debug, PartialEq, Eq, Structural)]
pub enum ToolStatus {
    /// It ran and exited with this code.
    Exited(i32),
    /// It could not be run at all.
    CouldNotRun,
}

/// Why a termination was not confirmed.
#[derive(Clone, Copy, Debug, PartialEq, Eq, Structural)]
pub enum FailReason {
    ToolUnavailable,
    ToolError(i32),
    /// The tool reported success but the process was still there when the
    /// bounded wait ran out.
    NotConfirmed,
}

/// The result of trying to stop one process.
#[derive(Clone, Copy, Debug, PartialEq, Eq, Structural)]
pub enum TerminationOutcome {
    Terminated,
    NotFound,
    Failed(FailReason),
}

/// The outcome that the observations of one termination attempt stand for.
pub open spec fn termination_outcome(present_before: bool, tool: ToolStatus, gone_after: bool) -> TerminationOutcome {
    if !present_before {
        TerminationOutcome::NotFound
    } else if gone_after {
        TerminationOutcome::Terminated
    } else {
        match tool {
            ToolStatus::CouldNotRun => TerminationOutcome::Failed(FailReason::ToolUnavailable),
            ToolStatus::Exited(code) => if code == 0 {
                TerminationOutcome::Failed(FailReason::NotConfirmed)
            } else {
                TerminationOutcome::Failed(FailReason::ToolError(code))
            },
        }
    }
}

/// Interprets one termination attempt: whether the target was in the process
/// table before, how the tool ended, and whether the target was gone when the
/// bounded wait ended. A target that was not there is `NotFound`, whatever
/// the tool said, so stopping an absent process never fails.
pub fn interpret_termination(present_before: bool, tool: ToolStatus, gone_after: bool) -> (r:
    TerminationOutcome)
    ensures
        r == termination_outcome(present_before, tool, gone_after),
        !present_before ==> r == TerminationOutcome::NotFound,
{
    if !present_before {
        TerminationOutcome::NotFound
    } else if gone_after {
        TerminationOutcome::Terminated
    } else {
        match tool {
            ToolStatus::CouldNotRun => TerminationOutcome::Failed(FailReason::ToolUnavailable),
            ToolStatus::Exited(code) => if code == 0 {
                TerminationOutcome::Failed(FailReason::NotConfirmed)
            } else {
                TerminationOutcome::Failed(FailReason::ToolError(code))
            },
        }
    }
}

/// What to do while waiting for a stopped process to be reaped.
#[derive(Clone, Copy, Debug, PartialEq, Eq, Structural)]
pub enum WaitDecision {
    /// Look at the process table again after a short pause.
    PollAgain,
    /// Stop waiting: the process is gone, or the bounded wait is over.
    Done,
}

/// Decides the next step of the bounded wait after a termination: it ends as
/// soon as the process is gone or `elapsed_ms` reaches `timeout_ms`, so the
/// wait never outlasts its bound.
pub fn wait_decision(gone: bool, elapsed_ms: u64, timeout_ms: u64) -> (d: WaitDecision)
    ensures
        d == (if gone || elapsed_ms >= timeout_ms {
            WaitDecision::Done
        } else {
            WaitDecision::PollAgain
        }),
{
    if gone || elapsed_ms >= timeout_ms {
        WaitDecision::Done
    } else {
        WaitDecision::PollAgain
    }
}

} // verus!
