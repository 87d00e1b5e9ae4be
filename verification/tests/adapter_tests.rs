use icap_reqmod::EndState;
use icap_reqmod::adapter::AdapterAction;
use icap_reqmod::adapter::BidirectionalAdapter;
use icap_reqmod::adapter::StreamCopyConfig;
use icap_reqmod::errors::AdaptationError;
use icap_reqmod::errors::BodyFault;
use icap_reqmod::errors::StreamCopyError;
use icap_reqmod::runstate::AdaptationRunState;
use icap_reqmod::waiter::TickAction;

fn new_adapter() -> BidirectionalAdapter {
    BidirectionalAdapter::new(
        1024,
        false,
        StreamCopyConfig {
            buffer_size: 8192,
            yield_size: 1 << 20,
        },
        65536,
    )
}

#[test]
fn length_declared_adapted_body() {
    // ICAP returns adapted headers with Content-Length: 150 and a
    // 150-byte chunked body with a valid trailer terminator.
    let mut state = AdaptationRunState::new();
    let mut adapter = new_adapter();

    let a = adapter.on_adapted_headers(Some(150));
    assert_eq!(a, AdapterAction::SendRequestHeader);

    let a = adapter.on_upstream_header_write(Ok(()), &mut state);
    assert_eq!(
        a,
        AdapterAction::StartLengthTransfer {
            expected: 150,
            line_max: 1024
        }
    );
    assert!(state.ups_send_header());
    assert!(!state.ups_send_all());

    let a = adapter.on_client_transfer_end(Ok(200));
    assert_eq!(a, AdapterAction::AwaitUpstreamTransfer);

    let a = adapter.on_upstream_transfer_end(Ok(150), false, &mut state);
    assert_eq!(a, AdapterAction::ReadTrailer { max_size: 128 });
    assert!(state.ups_send_all());

    let a = adapter.on_trailer_result(true);
    assert_eq!(a, AdapterAction::Completed);
    assert!(adapter.icap_read_finished());

    let end = EndState::AdaptedTransferred(String::from("final request"));
    assert_eq!(
        end,
        EndState::AdaptedTransferred(String::from("final request"))
    );
}

#[test]
fn length_mismatch_is_reported_with_both_numbers() {
    // ICAP declares 150 bytes but the chunked stream decodes to 149.
    let mut state = AdaptationRunState::new();
    let mut adapter = new_adapter();

    let _ = adapter.on_adapted_headers(Some(150));
    let _ = adapter.on_upstream_header_write(Ok(()), &mut state);
    let _ = adapter.on_client_transfer_end(Ok(200));
    let a = adapter.on_upstream_transfer_end(Ok(149), false, &mut state);
    assert_eq!(a, AdapterAction::ReadTrailer { max_size: 128 });

    let a = adapter.on_trailer_result(true);
    let fault = BodyFault::LengthMismatch {
        expected: 150,
        copied: 149,
    };
    assert_eq!(
        a,
        AdapterAction::Fail(AdaptationError::InvalidHttpBodyFromIcapServer(
            fault.clone()
        ))
    );
    let msg = fault.message();
    assert!(msg.contains("150"));
    assert!(msg.contains("149"));
    assert_eq!(msg, "Content-Length is 150 but decoded length is 149");
    // The trailer was valid, so the connection stays reusable even though
    // the lengths disagree.
    assert!(adapter.icap_read_finished());
}

#[test]
fn zero_length_with_body_is_malformed() {
    // Content-Length: 0 while a body frame follows.
    let mut state = AdaptationRunState::new();
    let mut adapter = new_adapter();

    let _ = adapter.on_adapted_headers(Some(0));
    let a = adapter.on_upstream_header_write(Ok(()), &mut state);
    assert_eq!(
        a,
        AdapterAction::Fail(AdaptationError::InvalidHttpBodyFromIcapServer(
            BodyFault::ZeroLengthWithBody
        ))
    );
    // The header had already been forwarded when the body was rejected.
    assert!(state.ups_send_header());
    assert!(!state.ups_send_all());
    assert_eq!(
        BodyFault::ZeroLengthWithBody.message(),
        "Content-Length is 0 but the ICAP server response contains http-body"
    );
}

#[test]
fn upstream_stall_blames_the_upstream_writer() {
    // The client body is fully relayed; the upstream writer accepts
    // nothing while ICAP has delivered part of the body, so the copier
    // holds cached data when the supervisor quits.
    let mut state = AdaptationRunState::new();
    let mut adapter = new_adapter();

    let _ = adapter.on_adapted_headers(Some(100));
    let _ = adapter.on_upstream_header_write(Ok(()), &mut state);
    let _ = adapter.on_client_transfer_end(Ok(100));

    let a = adapter.on_idle_tick(1, false, true);
    assert_eq!(a, TickAction::ConsultSupervisor(1));
    let e = adapter.on_quit_verdict(true, false, true, false);
    assert_eq!(e, Some(AdaptationError::HttpUpstreamWriteIdle));
}

#[test]
fn icap_read_idle_when_nothing_was_delivered() {
    let mut state = AdaptationRunState::new();
    let mut adapter = new_adapter();

    let _ = adapter.on_adapted_headers(None);
    let _ = adapter.on_upstream_header_write(Ok(()), &mut state);
    let _ = adapter.on_client_transfer_end(Ok(100));

    let a = adapter.on_idle_tick(1, false, true);
    assert_eq!(a, TickAction::ConsultSupervisor(1));
    let e = adapter.on_quit_verdict(true, false, true, true);
    assert_eq!(e, Some(AdaptationError::IcapServerReadIdle));
}

#[test]
fn stalled_client_transfer_takes_blame_first() {
    let mut state = AdaptationRunState::new();
    let mut adapter = new_adapter();

    let _ = adapter.on_adapted_headers(Some(100));
    let _ = adapter.on_upstream_header_write(Ok(()), &mut state);

    let a = adapter.on_idle_tick(1, true, true);
    assert_eq!(a, TickAction::ConsultSupervisor(1));
    let e = adapter.on_quit_verdict(true, true, true, true);
    assert_eq!(e, Some(AdaptationError::HttpClientReadIdle));
}

#[test]
fn stalled_client_with_buffered_output_blames_icap() {
    let mut state = AdaptationRunState::new();
    let mut adapter = new_adapter();

    let _ = adapter.on_adapted_headers(Some(100));
    let _ = adapter.on_upstream_header_write(Ok(()), &mut state);

    let _ = adapter.on_idle_tick(1, true, true);
    let e = adapter.on_quit_verdict(true, true, false, true);
    assert_eq!(e, Some(AdaptationError::IcapServerWriteIdle));
}

#[test]
fn eof_framed_body_completes_with_reader_flag() {
    let mut state = AdaptationRunState::new();
    let mut adapter = new_adapter();

    let _ = adapter.on_adapted_headers(None);
    let a = adapter.on_upstream_header_write(Ok(()), &mut state);
    assert_eq!(a, AdapterAction::StartEofTransfer { line_max: 1024 });

    let _ = adapter.on_client_transfer_end(Ok(42));
    let a = adapter.on_upstream_transfer_end(Ok(4242), true, &mut state);
    assert_eq!(a, AdapterAction::Completed);
    assert!(adapter.icap_read_finished());
    assert!(state.ups_send_all());
}

#[test]
fn eof_framed_body_without_terminator_is_not_reusable() {
    let mut state = AdaptationRunState::new();
    let mut adapter = new_adapter();

    let _ = adapter.on_adapted_headers(None);
    let _ = adapter.on_upstream_header_write(Ok(()), &mut state);
    let _ = adapter.on_client_transfer_end(Ok(42));
    let a = adapter.on_upstream_transfer_end(Ok(4242), false, &mut state);
    assert_eq!(a, AdapterAction::Completed);
    assert!(!adapter.icap_read_finished());
}

#[test]
fn missing_trailer_completes_but_blocks_reuse() {
    let mut state = AdaptationRunState::new();
    let mut adapter = new_adapter();

    let _ = adapter.on_adapted_headers(Some(10));
    let _ = adapter.on_upstream_header_write(Ok(()), &mut state);
    let _ = adapter.on_client_transfer_end(Ok(10));
    let _ = adapter.on_upstream_transfer_end(Ok(10), false, &mut state);
    let a = adapter.on_trailer_result(false);
    assert_eq!(a, AdapterAction::Completed);
    assert!(!adapter.icap_read_finished());
}

#[test]
fn header_write_failure_leaves_marks_unset() {
    let mut state = AdaptationRunState::new();
    let mut adapter = new_adapter();

    let _ = adapter.on_adapted_headers(Some(10));
    let a = adapter.on_upstream_header_write(Err(String::from("connection refused")), &mut state);
    assert_eq!(
        a,
        AdapterAction::Fail(AdaptationError::HttpUpstreamWriteFailed(String::from(
            "connection refused"
        )))
    );
    assert!(!state.ups_send_header());
    assert!(!state.ups_send_all());
}

#[test]
fn client_transfer_faults_are_attributed() {
    let mut state = AdaptationRunState::new();
    let mut adapter = new_adapter();
    let _ = adapter.on_adapted_headers(Some(10));
    let _ = adapter.on_upstream_header_write(Ok(()), &mut state);
    let a =
        adapter.on_client_transfer_end(Err(StreamCopyError::ReadFailed(String::from("reset"))));
    assert_eq!(
        a,
        AdapterAction::Fail(AdaptationError::HttpClientReadFailed(String::from("reset")))
    );

    let mut state = AdaptationRunState::new();
    let mut adapter = new_adapter();
    let _ = adapter.on_adapted_headers(Some(10));
    let _ = adapter.on_upstream_header_write(Ok(()), &mut state);
    let a =
        adapter.on_client_transfer_end(Err(StreamCopyError::WriteFailed(String::from("pipe"))));
    assert_eq!(
        a,
        AdapterAction::Fail(AdaptationError::IcapServerWriteFailed(String::from("pipe")))
    );
}

#[test]
fn upstream_transfer_faults_are_attributed() {
    let mut state = AdaptationRunState::new();
    let mut adapter = new_adapter();
    let _ = adapter.on_adapted_headers(Some(10));
    let _ = adapter.on_upstream_header_write(Ok(()), &mut state);
    let a = adapter.on_upstream_transfer_end(
        Err(StreamCopyError::ReadFailed(String::from("eof"))),
        false,
        &mut state,
    );
    assert_eq!(
        a,
        AdapterAction::Fail(AdaptationError::IcapServerReadFailed(String::from("eof")))
    );
    // The body mark is not set on this error path.
    assert!(state.ups_send_header());
    assert!(!state.ups_send_all());

    let mut state = AdaptationRunState::new();
    let mut adapter = new_adapter();
    let _ = adapter.on_adapted_headers(Some(10));
    let _ = adapter.on_upstream_header_write(Ok(()), &mut state);
    let a = adapter.on_upstream_transfer_end(
        Err(StreamCopyError::WriteFailed(String::from("full"))),
        false,
        &mut state,
    );
    assert_eq!(
        a,
        AdapterAction::Fail(AdaptationError::HttpUpstreamWriteFailed(String::from(
            "full"
        )))
    );
}

#[test]
fn streaming_activity_resets_the_account() {
    let mut state = AdaptationRunState::new();
    let mut adapter = new_adapter();
    let _ = adapter.on_adapted_headers(Some(10));
    let _ = adapter.on_upstream_header_write(Ok(()), &mut state);

    let _ = adapter.on_idle_tick(1, true, true);
    let _ = adapter.on_idle_tick(1, true, true);
    assert_eq!(adapter.idle_count(), 2);
    let a = adapter.on_idle_tick(1, true, false);
    assert_eq!(a, TickAction::ResetActive);
    assert_eq!(adapter.idle_count(), 0);
}

#[test]
fn force_quit_while_streaming() {
    let mut state = AdaptationRunState::new();
    let mut adapter = new_adapter();
    let _ = adapter.on_adapted_headers(Some(10));
    let _ = adapter.on_upstream_header_write(Ok(()), &mut state);
    let e = adapter.on_force_quit(Some(String::from("reload")));
    assert_eq!(
        e,
        Some(AdaptationError::IdleForceQuit(String::from("reload")))
    );
}
