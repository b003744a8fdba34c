use tello_sdk::client::{
    check_command, no_ack_success, plan_issue, Flip, IssueAction, Tello, DEFAULT_ACK_TIMEOUT_MS,
};
use tello_sdk::telemetry::State;
use tello_sdk::TelloError;

#[test]
fn wifi_command_is_refused_before_any_send() {
    assert_eq!(plan_issue(b"wifi ssid pass", false), IssueAction::Refused);
    assert_eq!(plan_issue(b"wifi ssid pass", true), IssueAction::Refused);
    assert_eq!(plan_issue(b"set wifi off", true), IssueAction::Refused);
    assert_eq!(
        check_command(b"wifi a b"),
        Err(TelloError::CredentialCommandRefused)
    );
}

#[test]
fn allowed_command_without_ack_is_immediate_success() {
    assert_eq!(plan_issue(b"takeoff", false), IssueAction::SendOnly);
    assert_eq!(no_ack_success(b"takeoff"), b"takeoff".to_vec());
}

#[test]
fn allowed_command_with_ack_enters_wait() {
    assert_eq!(plan_issue(b"land", true), IssueAction::SendAndAwait);
    assert_eq!(check_command(b"land"), Ok(()));
}

#[test]
fn new_client_defaults() {
    let t = Tello::new();
    assert!(!t.get_running());
    assert!(!t.is_rmtt());
    assert_eq!(t.get_ack_ms(), DEFAULT_ACK_TIMEOUT_MS);
    assert_eq!(t.get_ack_ms(), 10000);
}

#[test]
fn start_and_disconnect_toggle_running() {
    let mut t = Tello::new();
    t.start();
    assert!(t.get_running());
    t.disconnect();
    assert!(!t.get_running());
    // Idempotent.
    t.disconnect();
    assert!(!t.get_running());
}

#[test]
fn ack_timeout_is_configurable() {
    let mut t = Tello::new();
    t.set_ack_ms(200);
    assert_eq!(t.get_ack_ms(), 200);
}

#[test]
fn probe_answer_rmtt_sets_capability() {
    let mut t = Tello::new();
    t.record_probe(&Ok(b"RMTT".to_vec()));
    assert!(t.is_rmtt());
    t.record_probe(&Ok(b"unknown".to_vec()));
    assert!(!t.is_rmtt());
    t.record_probe(&Err(TelloError::AckTimeout));
    assert!(!t.is_rmtt());
}

#[test]
fn handshake_wire_strings() {
    let t = Tello::new();
    assert_eq!(t.command_mode().wire, b"command".to_vec());
    assert!(t.command_mode().await_ack);
    assert_eq!(t.hardware_probe().wire, b"hardware?".to_vec());
    assert!(t.hardware_probe().await_ack);
}

#[test]
fn simple_command_wire_strings() {
    let t = Tello::new();
    assert_eq!(t.take_off().wire, b"takeoff".to_vec());
    assert!(!t.take_off().await_ack);
    assert_eq!(t.land().wire, b"land".to_vec());
    assert!(t.land().await_ack);
    assert_eq!(t.stream_on().wire, b"streamon".to_vec());
    assert_eq!(t.stream_off().wire, b"streamoff".to_vec());
    assert_eq!(t.emergency().wire, b"emergency".to_vec());
    assert_eq!(t.speed(10).wire, b"speed 10".to_vec());
}

#[test]
fn motion_command_wire_strings() {
    let t = Tello::new();
    assert_eq!(t.up(20).wire, b"up 20".to_vec());
    assert_eq!(t.down(500).wire, b"down 500".to_vec());
    assert_eq!(t.left(0).wire, b"left 0".to_vec());
    assert_eq!(t.right(65535).wire, b"right 65535".to_vec());
    assert_eq!(t.forward(1).wire, b"forward 1".to_vec());
    assert_eq!(t.back(42).wire, b"back 42".to_vec());
    assert_eq!(t.cw(90).wire, b"cw 90".to_vec());
    assert_eq!(t.ccw(4500).wire, b"ccw 4500".to_vec());
    assert_eq!(t.go(1, 2, 3, 4).wire, b"go 1 2 3 4".to_vec());
    assert_eq!(
        t.curve(10, 20, 30, 40, 50, 60, 7).wire,
        b"curve 10 20 30 40 50 60 7".to_vec()
    );
}

#[test]
fn rc_wire_string_carries_signs_and_awaits_no_ack() {
    let t = Tello::new();
    let q = t.rc(-100, 0, 5, -128);
    assert_eq!(q.wire, b"rc -100 0 5 -128".to_vec());
    assert!(!q.await_ack);
}

#[test]
fn flip_letters() {
    let t = Tello::new();
    assert_eq!(Flip::Left.value(), 'l');
    assert_eq!(Flip::Right.value(), 'r');
    assert_eq!(Flip::Forward.value(), 'f');
    assert_eq!(Flip::Backward.value(), 'b');
    assert_eq!(t.flip(Flip::Left).wire, b"flip l".to_vec());
    assert_eq!(t.flip(Flip::Backward).wire, b"flip b".to_vec());
}

#[test]
fn extension_commands_fail_fast_without_capability() {
    let t = Tello::new();
    assert_eq!(
        t.ext_led_color(1, 2, 3),
        Err(TelloError::CapabilityUnavailable)
    );
    assert_eq!(
        t.ext_led_pulse(1, 2, 3, b"0.5"),
        Err(TelloError::CapabilityUnavailable)
    );
    assert_eq!(
        t.ext_led_blink(1, 2, 3, 4, 5, 6, b"0.5"),
        Err(TelloError::CapabilityUnavailable)
    );
    assert_eq!(
        t.ext_matrix_scroll('l', 'b', 'x', b"2.5"),
        Err(TelloError::CapabilityUnavailable)
    );
    assert_eq!(
        t.ext_matrix_display(b"rrbb"),
        Err(TelloError::CapabilityUnavailable)
    );
    assert_eq!(
        t.ext_matrix_char('r', b"hi", b"1"),
        Err(TelloError::CapabilityUnavailable)
    );
    assert_eq!(
        t.ext_matrix_brightness(100),
        Err(TelloError::CapabilityUnavailable)
    );
}

#[test]
fn extension_commands_after_probe_send_expected_wire() {
    let mut t = Tello::new();
    t.record_probe(&Ok(b"RMTT".to_vec()));
    assert_eq!(
        t.ext_led_color(255, 0, 7).unwrap().wire,
        b"EXT led 255 0 7".to_vec()
    );
    assert_eq!(
        t.ext_led_pulse(1, 2, 3, b"0.5").unwrap().wire,
        b"EXT led br 0.5 1 2 3".to_vec()
    );
    assert_eq!(
        t.ext_matrix_display(b"rrbb").unwrap().wire,
        b"EXT mled g rrbb".to_vec()
    );
    assert_eq!(
        t.ext_matrix_scroll('l', 'b', 'x', b"2.5").unwrap().wire,
        b"EXT mled l b 2.5 x".to_vec()
    );
    assert_eq!(
        t.ext_matrix_char('r', b"hi", b"1").unwrap().wire,
        b"EXT mled s r 1 hi".to_vec()
    );
    assert_eq!(
        t.ext_matrix_brightness(100).unwrap().wire,
        b"EXT mled sl 100".to_vec()
    );
}

#[test]
fn matrix_commands_encode_non_ascii_characters() {
    let mut t = Tello::new();
    t.record_probe(&Ok(b"RMTT".to_vec()));
    assert_eq!(
        t.ext_matrix_scroll('é', 'b', 'x', b"1").unwrap().wire,
        "EXT mled é b 1 x".as_bytes().to_vec()
    );
    assert_eq!(
        t.ext_matrix_char('€', b"hi", b"2").unwrap().wire,
        "EXT mled s € 2 hi".as_bytes().to_vec()
    );
}

#[test]
fn blink_wire_keeps_the_writers_color_order() {
    let mut t = Tello::new();
    t.record_probe(&Ok(b"RMTT".to_vec()));
    // The second color goes out as red, blue, green.
    assert_eq!(
        t.ext_led_blink(1, 2, 3, 4, 5, 6, b"0.5").unwrap().wire,
        b"EXT led bl 0.5 1 2 3 4 6 5".to_vec()
    );
}

#[test]
fn repr_formats_battery_and_timeout() {
    let mut t = Tello::new();
    let mut st = State::new();
    st.ingest_frame(
        b"pitch:0;roll:1;yaw:2;vgx:0;vgy:0;vgz:0;templ:60;temph:65;tof:100;h:50;bat:77;baro:1.23;time:42;agx:0.0;agy:0.0;agz:-1000.0;",
    );
    assert_eq!(t.repr(&st), b"<Tello not connected>".to_vec());
    t.start();
    assert_eq!(t.repr(&st), b"<Tello 77%, timeout: 10000>".to_vec());
}

#[test]
fn transport_error_carries_its_message() {
    let e = TelloError::Transport(String::from("sendto failed"));
    assert_eq!(e, TelloError::Transport(String::from("sendto failed")));
    assert_ne!(e, TelloError::AckTimeout);
}
