//! The result vocabulary of an upload: the two terminal outcomes, the exit
//! codes that carry them across the process boundary, and the rule that maps
//! the storage client's response to an outcome.
//!
//! The exit codes 60 and 61 are the entire vocabulary crossing the process
//! boundary; they are a closed, stable interface and stand for success and
//! failure respectively.

use vstd::prelude::*;

verus! {

/// Exit code with which the upload executor terminates after a successful
/// upload.
pub const EXIT_CODE_SUCCESS: i32 = 60;

/// Exit code with which the upload executor terminates after a failed upload.
pub const EXIT_CODE_FAILURE: i32 = 61;

/// A terminal outcome of an upload.
#[derive(Clone, Copy, Debug, PartialEq, Eq, Structural)]
pub enum UploadOutcome {
    Success,
    Failure,
}

/// The exit code that encodes outcome `o`.
pub open spec fn exit_code_of(o: UploadOutcome) -> i32 {
    if o is Success {
        EXIT_CODE_SUCCESS
    } else {
        EXIT_CODE_FAILURE
    }
}

/// The outcome encoded by exit code `c`, if any.
pub open spec fn outcome_of_code(c: i32) -> Option<UploadOutcome> {
    if c == EXIT_CODE_SUCCESS {
        Some(UploadOutcome::Success)
    } else if c == EXIT_CODE_FAILURE {
        Some(UploadOutcome::Failure)
    } else {
        None
    }
}

/// An HTTP status code that counts as a successful upload.
pub open spec fn is_success_status(code: u16) -> bool {
    200 <= code && code < 300
}

/// The outcome the executor derives from the storage client's answer:
/// `Some(code)` is the HTTP status of a completed request, `None` a client
/// or transport error that produced no response.
pub open spec fn spec_outcome_of_put(status: Option<u16>) -> UploadOutcome {
    match status {
        Some(code) => if is_success_status(code) {
            UploadOutcome::Success
        } else {
            UploadOutcome::Failure
        },
        None => UploadOutcome::Failure,
    }
}

/// Encodes an outcome as the exit code the executor terminates with.
pub fn encode_outcome(o: UploadOutcome) -> (c: i32)
    ensures
        c == exit_code_of(o),
{
    match o {
        UploadOutcome::Success => EXIT_CODE_SUCCESS,
        UploadOutcome::Failure => EXIT_CODE_FAILURE,
    }
}

/// Decodes an exit code back into the outcome it encodes, if any.
pub fn decode_exit_code(c: i32) -> (r: Option<UploadOutcome>)
    ensures
        r == outcome_of_code(c),
{
    if c == EXIT_CODE_SUCCESS {
        Some(UploadOutcome::Success)
    } else if c == EXIT_CODE_FAILURE {
        Some(UploadOutcome::Failure)
    } else {
        None
    }
}

/// Classifies the storage client's answer as a terminal outcome.
pub fn outcome_of_put(status: Option<u16>) -> (o: UploadOutcome)
    ensures
        o == spec_outcome_of_put(status),
{
    match status {
        Some(code) => if 200 <= code && code < 300 {
            UploadOutcome::Success
        } else {
            UploadOutcome::Failure
        },
        None => UploadOutcome::Failure,
    }
}

/// The exit code the executor must terminate with, given the storage
/// client's answer.
pub fn executor_exit_code(status: Option<u16>) -> (c: i32)
    ensures
        c == exit_code_of(spec_outcome_of_put(status)),
{
    encode_outcome(outcome_of_put(status))
}

/// Every outcome survives the trip through its exit code: encoding and then
/// decoding gives the outcome back, so the two codes never collide and no
/// outcome is lost.
pub proof fn lemma_exit_code_round_trip(o: UploadOutcome)
    ensures
        outcome_of_code(exit_code_of(o)) == Some(o),
{
}

/// Every decodable exit code decodes to the one outcome that encodes to it:
/// the code table is a bijection between outcomes and the codes 60 and 61.
pub proof fn lemma_exit_code_unambiguous(c: i32, o: UploadOutcome)
    ensures
        outcome_of_code(c) == Some(o) ==> exit_code_of(o) == c,
{
}

} // verus!
