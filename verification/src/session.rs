//! The per-handle state machine of the completion protocol, and its laws.
//!
//! A handle is `Running` until one poll observes a terminal exit, after which
//! it is `Done` with the child's outcome; `Done` is absorbing.  The laws
//! below tie the whole protocol together for a child that runs the upload
//! executor: every poll before completion reports still-running, the first
//! poll after completion reports the executor's own outcome, no other
//! terminal status can ever be reported, and a fault never turns into a
//! terminal status.

use vstd::prelude::*;
use crate::outcome::{UploadOutcome, exit_code_of};
use crate::poll::{PollFault, WaitObservation, poll_code_of, spec_poll};

verus! {

/// The caller-visible state of one handle.
pub enum HandleState {
    /// No terminal status has been observed yet.
    Running,
    /// A terminal status was observed; it reported this outcome.
    Done(UploadOutcome),
}

/// What a non-blocking wait on handle `pid` observes of a child that runs
/// the upload executor to completion with outcome `o`: nothing before the
/// executor has terminated, and afterwards a normal exit whose code encodes
/// `o`.
pub open spec fn child_observation(pid: i32, o: UploadOutcome, finished: bool) -> WaitObservation {
    if finished {
        WaitObservation::Exited { pid: pid, code: exit_code_of(o) }
    } else {
        WaitObservation::StillAlive
    }
}

/// How one poll moves a handle's state: a terminal status settles the state
/// for good, a still-running answer leaves it alone, and a fault records no
/// outcome at all (the caller aborts instead).
pub open spec fn advance(s: HandleState, pid: i32, obs: WaitObservation) -> HandleState {
    match s {
        HandleState::Done(o) => HandleState::Done(o),
        HandleState::Running => match spec_poll(pid, obs) {
            Ok(status) => if status == 0 {
                HandleState::Done(UploadOutcome::Success)
            } else if status == 1 {
                HandleState::Done(UploadOutcome::Failure)
            } else {
                HandleState::Running
            },
            Err(_) => HandleState::Running,
        },
    }
}

/// The completion protocol, end to end: polling a child that runs the upload
/// executor with outcome `o` never faults, reports exactly 2 (still running)
/// on every poll before the executor has terminated, and exactly `o`'s own
/// terminal code — 0 for success, 1 for failure — once it has.
pub proof fn lemma_poll_protocol(pid: i32, o: UploadOutcome, finished: bool)
    ensures
        !finished ==> spec_poll(pid, child_observation(pid, o, finished)) == Ok::<u64, PollFault>(2),
        finished ==> spec_poll(pid, child_observation(pid, o, finished)) == Ok::<u64, PollFault>(
            poll_code_of(o),
        ),
        poll_code_of(o) == 0 || poll_code_of(o) == 1,
{
}

/// A child whose upload succeeds is never reported as failed: no observation
/// of it yields status 1, and its completion yields status 0.
pub proof fn lemma_success_never_reported_failed(pid: i32, finished: bool)
    ensures
        spec_poll(pid, child_observation(pid, UploadOutcome::Success, finished)) != Ok::<
            u64,
            PollFault,
        >(1),
        finished ==> spec_poll(pid, child_observation(pid, UploadOutcome::Success, finished))
            == Ok::<u64, PollFault>(0),
{
}

/// A child whose upload fails is never reported as successful: no
/// observation of it yields status 0, and its completion yields status 1.
pub proof fn lemma_failure_never_reported_successful(pid: i32, finished: bool)
    ensures
        spec_poll(pid, child_observation(pid, UploadOutcome::Failure, finished)) != Ok::<
            u64,
            PollFault,
        >(0),
        finished ==> spec_poll(pid, child_observation(pid, UploadOutcome::Failure, finished))
            == Ok::<u64, PollFault>(1),
{
}

/// A child that never completes is reported as still running on every poll,
/// whatever outcome its upload would eventually have had.
pub proof fn lemma_hanging_child_reports_running(pid: i32, o: UploadOutcome)
    ensures
        spec_poll(pid, child_observation(pid, o, false)) == Ok::<u64, PollFault>(2),
{
}

/// A terminal state is stable: once a handle is `Done`, no further
/// observation — of any kind — changes it or its recorded outcome.
pub proof fn lemma_terminal_state_is_stable(s: HandleState, pid: i32, obs: WaitObservation)
    requires
        s is Done,
    ensures
        advance(s, pid, obs) == s,
{
}

/// The recorded outcome is faithful: a running handle polled against a child
/// with outcome `o` either stays running or becomes `Done(o)` — it can never
/// record the opposite outcome.
pub proof fn lemma_recorded_outcome_is_faithful(pid: i32, o: UploadOutcome, finished: bool)
    ensures
        advance(HandleState::Running, pid, child_observation(pid, o, finished)) is Done ==> advance(
            HandleState::Running,
            pid,
            child_observation(pid, o, finished),
        ) == HandleState::Done(o),
{
}

} // verus!
