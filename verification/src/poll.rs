//! The completion reporter: a single non-blocking check of an upload's
//! execution context, mapped to the caller's status vocabulary.
//!
//! `s3_put_poll` returns `Ok(0)` for success, `Ok(1)` for failure and `Ok(2)`
//! while the child still runs.  Every state the protocol gives no meaning to
//! — an unknown exit code, a termination by signal, stop or trace event, a
//! status for a foreign process, a failed wait — comes back as a
//! [`PollFault`], on which the caller must abort rather than guess: a wrong
//! success or failure signal would silently corrupt its view of upload state.

use vstd::prelude::*;
use nix::sys::wait::{waitpid, WaitPidFlag, WaitStatus};
use nix::unistd::Pid;
use crate::outcome::{EXIT_CODE_FAILURE, EXIT_CODE_SUCCESS, UploadOutcome, outcome_of_code};

verus! {

/// What one non-blocking wait on a child handle observed, as plain values.
#[derive(Clone, Copy, Debug, PartialEq, Eq, Structural)]
pub enum WaitObservation {
    /// The child exited normally with the given exit code.
    Exited { pid: i32, code: i32 },
    /// The child was killed by a signal.
    Signaled { pid: i32 },
    /// The child was stopped by a signal.
    Stopped { pid: i32 },
    /// The child was stopped by a trace event.
    TraceEvent { pid: i32 },
    /// The child was stopped on a traced system call.
    TraceSyscall { pid: i32 },
    /// The child resumed after a stop.
    Continued { pid: i32 },
    /// The child has not changed state yet.
    StillAlive,
    /// The wait itself failed with the given errno.
    Failed { errno: i32 },
}

/// A state the completion protocol gives no meaning to.  Observing one is
/// unrecoverable by design: the caller must abort rather than receive an
/// ambiguous status.
#[derive(Clone, Copy, Debug, PartialEq, Eq, Structural)]
pub enum PollFault {
    /// The child exited with a code outside the protocol's vocabulary.
    UnknownExitCode { code: i32 },
    /// The wait reported a process other than the polled handle.
    ForeignChild { pid: i32 },
    /// The child was signaled, stopped, traced or continued instead of
    /// exiting.
    AbnormalTermination,
    /// The wait system call itself failed; the handle was stale or invalid.
    WaitFailed { errno: i32 },
}

/// The status the poller owes the caller for one observation of handle
/// `pid`: the full decision table of the completion reporter.
pub open spec fn spec_poll(pid: i32, obs: WaitObservation) -> Result<u64, PollFault> {
    match obs {
        WaitObservation::StillAlive => Ok(2u64),
        WaitObservation::Exited { pid: p, code } => if p != pid {
            Err(PollFault::ForeignChild { pid: p })
        } else {
            match outcome_of_code(code) {
                Some(o) => Ok(poll_code_of(o)),
                None => Err(PollFault::UnknownExitCode { code }),
            }
        },
        WaitObservation::Failed { errno } => Err(PollFault::WaitFailed { errno }),
        _ => Err(PollFault::AbnormalTermination),
    }
}

/// The terminal status code reported for outcome `o`: 0 for success, 1 for
/// failure.
pub open spec fn poll_code_of(o: UploadOutcome) -> u64 {
    if o is Success {
        0u64
    } else {
        1u64
    }
}

/// Relies on `nix::sys::wait::waitpid` with `WNOHANG`: reports, without
/// blocking, whether the child `pid` has changed state, `StillAlive` when it
/// has not.  For a normal exit, nix hands back `WEXITSTATUS`, the low eight
/// bits of the exit status.
#[verifier::external_body]
fn wait_nonblocking(pid: i32) -> (obs: WaitObservation)
    ensures
        obs matches WaitObservation::Exited { pid: p, code } ==> 0 <= code <= 255,
{
    match waitpid(Pid::from_raw(pid), Some(WaitPidFlag::WNOHANG)) {
        Ok(WaitStatus::Exited(p, code)) => WaitObservation::Exited { pid: p.as_raw(), code },
        Ok(WaitStatus::Signaled(p, _, _)) => WaitObservation::Signaled { pid: p.as_raw() },
        Ok(WaitStatus::Stopped(p, _)) => WaitObservation::Stopped { pid: p.as_raw() },
        Ok(WaitStatus::PtraceEvent(p, _, _)) => WaitObservation::TraceEvent { pid: p.as_raw() },
        Ok(WaitStatus::PtraceSyscall(p)) => WaitObservation::TraceSyscall { pid: p.as_raw() },
        Ok(WaitStatus::Continued(p)) => WaitObservation::Continued { pid: p.as_raw() },
        Ok(WaitStatus::StillAlive) => WaitObservation::StillAlive,
        Err(e) => WaitObservation::Failed { errno: e as i32 },
    }
}

/// Maps one wait observation of handle `pid` to the status the caller is
/// owed, exactly as [`spec_poll`] states it.
pub fn interpret_observation(pid: i32, obs: WaitObservation) -> (r: Result<u64, PollFault>)
    ensures
        r == spec_poll(pid, obs),
{
    match obs {
        WaitObservation::StillAlive => Ok(2),
        WaitObservation::Exited { pid: p, code } => if p != pid {
            Err(PollFault::ForeignChild { pid: p })
        } else if code == EXIT_CODE_SUCCESS {
            Ok(0)
        } else if code == EXIT_CODE_FAILURE {
            Ok(1)
        } else {
            Err(PollFault::UnknownExitCode { code })
        },
        WaitObservation::Failed { errno } => Err(PollFault::WaitFailed { errno }),
        WaitObservation::Signaled { .. } => Err(PollFault::AbnormalTermination),
        WaitObservation::Stopped { .. } => Err(PollFault::AbnormalTermination),
        WaitObservation::TraceEvent { .. } => Err(PollFault::AbnormalTermination),
        WaitObservation::TraceSyscall { .. } => Err(PollFault::AbnormalTermination),
        WaitObservation::Continued { .. } => Err(PollFault::AbnormalTermination),
    }
}

/// Performs one non-blocking poll of the upload running under handle `pid`.
///
/// Whatever the wait observed, the answer is its interpretation under
/// [`spec_poll`]; a returned status is always one of 0 (success), 1
/// (failure) or 2 (still running), and a fault is the caller's signal to
/// abort.
pub fn s3_put_poll(pid: i32) -> (r: Result<u64, PollFault>)
    ensures
        r matches Ok(status) ==> status == 0 || status == 1 || status == 2,
{
    let obs = wait_nonblocking(pid);
    interpret_observation(pid, obs)
}

} // verus!
