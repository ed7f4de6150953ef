use s3_put::outcome::{
    decode_exit_code, encode_outcome, executor_exit_code, outcome_of_put, UploadOutcome,
    EXIT_CODE_FAILURE, EXIT_CODE_SUCCESS,
};
use s3_put::poll::{interpret_observation, PollFault, WaitObservation};
use s3_put::request::UploadRequest;

#[test]
fn exit_codes_are_the_fixed_vocabulary() {
    assert_eq!(EXIT_CODE_SUCCESS, 60);
    assert_eq!(EXIT_CODE_FAILURE, 61);
    assert_eq!(encode_outcome(UploadOutcome::Success), 60);
    assert_eq!(encode_outcome(UploadOutcome::Failure), 61);
}

#[test]
fn exit_codes_round_trip() {
    assert_eq!(
        decode_exit_code(encode_outcome(UploadOutcome::Success)),
        Some(UploadOutcome::Success)
    );
    assert_eq!(
        decode_exit_code(encode_outcome(UploadOutcome::Failure)),
        Some(UploadOutcome::Failure)
    );
}

#[test]
fn foreign_exit_codes_decode_to_nothing() {
    assert_eq!(decode_exit_code(0), None);
    assert_eq!(decode_exit_code(1), None);
    assert_eq!(decode_exit_code(59), None);
    assert_eq!(decode_exit_code(62), None);
    assert_eq!(decode_exit_code(255), None);
    assert_eq!(decode_exit_code(-1), None);
}

#[test]
fn http_success_range_maps_to_success() {
    assert_eq!(outcome_of_put(Some(200)), UploadOutcome::Success);
    assert_eq!(outcome_of_put(Some(204)), UploadOutcome::Success);
    assert_eq!(outcome_of_put(Some(299)), UploadOutcome::Success);
}

#[test]
fn http_error_codes_and_transport_errors_map_to_failure() {
    assert_eq!(outcome_of_put(Some(199)), UploadOutcome::Failure);
    assert_eq!(outcome_of_put(Some(300)), UploadOutcome::Failure);
    assert_eq!(outcome_of_put(Some(403)), UploadOutcome::Failure);
    assert_eq!(outcome_of_put(Some(500)), UploadOutcome::Failure);
    assert_eq!(outcome_of_put(None), UploadOutcome::Failure);
}

#[test]
fn executor_exit_code_encodes_the_classified_outcome() {
    assert_eq!(executor_exit_code(Some(200)), 60);
    assert_eq!(executor_exit_code(Some(403)), 61);
    assert_eq!(executor_exit_code(None), 61);
}

#[test]
fn still_alive_polls_as_running() {
    assert_eq!(interpret_observation(7, WaitObservation::StillAlive), Ok(2));
}

#[test]
fn normal_exits_poll_as_their_outcome() {
    assert_eq!(
        interpret_observation(7, WaitObservation::Exited { pid: 7, code: 60 }),
        Ok(0)
    );
    assert_eq!(
        interpret_observation(7, WaitObservation::Exited { pid: 7, code: 61 }),
        Ok(1)
    );
}

#[test]
fn unknown_exit_codes_are_faults() {
    assert_eq!(
        interpret_observation(7, WaitObservation::Exited { pid: 7, code: 0 }),
        Err(PollFault::UnknownExitCode { code: 0 })
    );
    assert_eq!(
        interpret_observation(7, WaitObservation::Exited { pid: 7, code: 62 }),
        Err(PollFault::UnknownExitCode { code: 62 })
    );
}

#[test]
fn a_foreign_process_is_a_fault() {
    assert_eq!(
        interpret_observation(7, WaitObservation::Exited { pid: 8, code: 60 }),
        Err(PollFault::ForeignChild { pid: 8 })
    );
}

#[test]
fn abnormal_terminations_are_faults() {
    for obs in [
        WaitObservation::Signaled { pid: 7 },
        WaitObservation::Stopped { pid: 7 },
        WaitObservation::TraceEvent { pid: 7 },
        WaitObservation::TraceSyscall { pid: 7 },
        WaitObservation::Continued { pid: 7 },
    ] {
        assert_eq!(
            interpret_observation(7, obs),
            Err(PollFault::AbnormalTermination)
        );
    }
}

#[test]
fn a_failed_wait_is_a_fault() {
    assert_eq!(
        interpret_observation(7, WaitObservation::Failed { errno: 10 }),
        Err(PollFault::WaitFailed { errno: 10 })
    );
}

#[test]
fn polling_a_handle_that_is_no_child_faults() {
    // The test process has no child with this pid, so the real non-blocking
    // wait fails with ECHILD and the poller reports an unrecoverable fault
    // instead of a status.
    let r = s3_put::poll::s3_put_poll(999_999_999);
    assert!(matches!(r, Err(PollFault::WaitFailed { .. })), "got {:?}", r);
}

#[test]
fn valid_requests_are_accepted_with_their_fields_kept() {
    let req = UploadRequest::from_parts(
        b"test-bucket".to_vec(),
        b"hello.txt".to_vec(),
        b"hello world".to_vec(),
    )
    .expect("a well-formed request must be accepted");
    assert_eq!(req.bucket, b"test-bucket".to_vec());
    assert_eq!(req.key, b"hello.txt".to_vec());
    assert_eq!(req.body, b"hello world".to_vec());
    assert_eq!(req.body.len(), 11);
}

#[test]
fn an_arbitrary_body_is_never_rejected() {
    let body = vec![0xFF, 0x00, 0x80, 0xC3];
    assert!(UploadRequest::from_parts(b"b".to_vec(), b"k".to_vec(), body).is_some());
}

#[test]
fn malformed_bucket_or_key_bytes_are_rejected() {
    assert!(UploadRequest::from_parts(vec![0xFF], b"k".to_vec(), Vec::new()).is_none());
    assert!(UploadRequest::from_parts(b"b".to_vec(), vec![0xC3], Vec::new()).is_none());
    assert!(UploadRequest::from_parts(vec![0xED, 0xA0, 0x80], b"k".to_vec(), Vec::new()).is_none());
}

#[test]
fn upload_reported_success_scenario() {
    // bucket="test-bucket", key="hello.txt", body=b"hello world"; the stub
    // storage client answers HTTP 200.  The executor exits with 60 and the
    // final poll of that exit reports status 0.
    let req = UploadRequest::from_parts(
        b"test-bucket".to_vec(),
        b"hello.txt".to_vec(),
        b"hello world".to_vec(),
    )
    .unwrap();
    assert!(req.body.len() == 11);
    let child_pid = 4242;
    let exit_code = executor_exit_code(Some(200));
    assert_eq!(exit_code, 60);
    let before = interpret_observation(child_pid, WaitObservation::StillAlive);
    assert_eq!(before, Ok(2));
    let after = interpret_observation(
        child_pid,
        WaitObservation::Exited { pid: child_pid, code: exit_code },
    );
    assert_eq!(after, Ok(0));
}

#[test]
fn upload_reported_failure_scenario() {
    // Same request; the stub storage client answers HTTP 403.  The executor
    // exits with 61 and the final poll reports status 1.
    let req = UploadRequest::from_parts(
        b"test-bucket".to_vec(),
        b"hello.txt".to_vec(),
        b"hello world".to_vec(),
    )
    .unwrap();
    assert!(req.body.len() == 11);
    let child_pid = 4242;
    let exit_code = executor_exit_code(Some(403));
    assert_eq!(exit_code, 61);
    let before = interpret_observation(child_pid, WaitObservation::StillAlive);
    assert_eq!(before, Ok(2));
    let after = interpret_observation(
        child_pid,
        WaitObservation::Exited { pid: child_pid, code: exit_code },
    );
    assert_eq!(after, Ok(1));
}
