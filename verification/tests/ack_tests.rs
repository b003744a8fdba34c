use tello_sdk::ack::{classify_response, poll_ack, AckSignal, PollOutcome};
use tello_sdk::TelloError;

#[test]
fn new_signal_is_clear() {
    let sig = AckSignal::new();
    assert!(!sig.pending);
    assert!(sig.text.is_empty());
}

#[test]
fn qualifying_ok_frame_is_captured_trimmed() {
    let mut sig = AckSignal::new();
    sig.observe(b"  ok\r\n");
    assert!(sig.pending);
    assert_eq!(sig.text, b"ok".to_vec());
}

#[test]
fn qualifying_error_frame_is_captured() {
    let mut sig = AckSignal::new();
    sig.observe(b"error Motor stop");
    assert!(sig.pending);
    assert_eq!(sig.text, b"error Motor stop".to_vec());
}

#[test]
fn undecodable_frame_is_ignored_even_with_ok_bytes() {
    let mut sig = AckSignal::new();
    sig.observe(b"ok\xFF");
    assert!(!sig.pending);
    assert!(sig.text.is_empty());
}

#[test]
fn qualifying_frame_with_valid_multibyte_text_is_captured() {
    let mut sig = AckSignal::new();
    sig.observe(b"ok caf\xC3\xA9\n");
    assert!(sig.pending);
    assert_eq!(sig.text, b"ok caf\xC3\xA9".to_vec());
}

#[test]
fn non_qualifying_frame_is_ignored() {
    let mut sig = AckSignal::new();
    sig.observe(b"battery low");
    assert!(!sig.pending);
    assert!(sig.text.is_empty());
}

#[test]
fn newest_qualifying_frame_overwrites_unconsumed_text() {
    let mut sig = AckSignal::new();
    sig.observe(b"ok");
    sig.observe(b"error 42");
    assert!(sig.pending);
    assert_eq!(sig.text, b"error 42".to_vec());
}

#[test]
fn try_consume_clears_flag_and_hands_out_text() {
    let mut sig = AckSignal::new();
    sig.observe(b"ok");
    let taken = sig.try_consume();
    assert_eq!(taken, Some(b"ok".to_vec()));
    assert!(!sig.pending);
    assert_eq!(sig.try_consume(), None);
}

#[test]
fn classify_ok_is_success_with_text() {
    assert_eq!(classify_response(b"ok".to_vec()), Ok(b"ok".to_vec()));
}

#[test]
fn classify_error_is_rejection_with_text() {
    assert_eq!(
        classify_response(b"error Not joystick".to_vec()),
        Err(TelloError::DroneRejected(b"error Not joystick".to_vec()))
    );
}

#[test]
fn classify_unactive_is_rejection() {
    assert_eq!(
        classify_response(b"unactive ok".to_vec()),
        Err(TelloError::DroneRejected(b"unactive ok".to_vec()))
    );
}

#[test]
fn poll_after_window_times_out_and_leaves_signal() {
    let mut sig = AckSignal::new();
    sig.observe(b"ok");
    let r = poll_ack(&mut sig, 200, 200);
    assert_eq!(r, PollOutcome::Completed(Err(TelloError::AckTimeout)));
    // The signal is left as-is: the next awaiting call will consume it.
    assert!(sig.pending);
    assert_eq!(sig.text, b"ok".to_vec());
}

#[test]
fn poll_without_pending_keeps_waiting() {
    let mut sig = AckSignal::new();
    let r = poll_ack(&mut sig, 150, 200);
    assert_eq!(r, PollOutcome::Pending);
    assert!(!sig.pending);
}

#[test]
fn poll_consumes_pending_ok_as_success() {
    let mut sig = AckSignal::new();
    sig.observe(b"ok");
    let r = poll_ack(&mut sig, 199, 200);
    assert_eq!(r, PollOutcome::Completed(Ok(b"ok".to_vec())));
    assert!(!sig.pending);
}

#[test]
fn poll_consumes_pending_error_as_rejection() {
    let mut sig = AckSignal::new();
    sig.observe(b"error");
    let r = poll_ack(&mut sig, 0, 10000);
    assert_eq!(
        r,
        PollOutcome::Completed(Err(TelloError::DroneRejected(b"error".to_vec())))
    );
    assert!(!sig.pending);
}
