use tello_sdk::telemetry::State;

const GOOD_FRAME: &[u8] =
    b"pitch:0;roll:1;yaw:2;vgx:0;vgy:0;vgz:0;templ:60;temph:65;tof:100;h:50;bat:77;baro:1.23;time:42;agx:0.0;agy:0.0;agz:-1000.0;";

fn assert_states_equal(a: &State, b: &State) {
    assert_eq!(a.get_roll(), b.get_roll());
    assert_eq!(a.get_pitch(), b.get_pitch());
    assert_eq!(a.get_yaw(), b.get_yaw());
    assert_eq!(a.get_velocity_x(), b.get_velocity_x());
    assert_eq!(a.get_velocity_y(), b.get_velocity_y());
    assert_eq!(a.get_velocity_z(), b.get_velocity_z());
    assert_eq!(a.get_teperature_min(), b.get_teperature_min());
    assert_eq!(a.get_teperature_max(), b.get_teperature_max());
    assert_eq!(a.get_teperature_mix(), b.get_teperature_mix());
    assert_eq!(a.get_height(), b.get_height());
    assert_eq!(a.get_battery(), b.get_battery());
    assert_eq!(a.get_barometer_height(), b.get_barometer_height());
    assert_eq!(a.get_time(), b.get_time());
    assert_eq!(a.get_accel_x(), b.get_accel_x());
    assert_eq!(a.get_accel_y(), b.get_accel_y());
    assert_eq!(a.get_accel_z(), b.get_accel_z());
}

#[test]
fn full_frame_updates_every_field() {
    let mut st = State::new();
    st.ingest_frame(GOOD_FRAME);
    assert_eq!(st.get_roll(), 1);
    assert_eq!(st.get_pitch(), 0);
    assert_eq!(st.get_yaw(), 2);
    assert_eq!(st.get_velocity_x(), 0);
    assert_eq!(st.get_velocity_y(), 0);
    assert_eq!(st.get_velocity_z(), 0);
    assert_eq!(st.get_teperature_min(), 60);
    assert_eq!(st.get_teperature_max(), 65);
    assert_eq!(st.tof_value, 100);
    assert_eq!(st.get_teperature_mix(), 100);
    assert_eq!(st.get_height(), 50);
    assert_eq!(st.get_battery(), 77);
    assert_eq!(st.get_barometer_height(), b"1.23".to_vec());
    assert_eq!(st.get_time(), 42);
    assert_eq!(st.get_accel_x(), b"0.0".to_vec());
    assert_eq!(st.get_accel_y(), b"0.0".to_vec());
    assert_eq!(st.get_accel_z(), b"-1000.0".to_vec());
}

#[test]
fn new_state_is_all_zero() {
    let st = State::new();
    assert_eq!(st.get_roll(), 0);
    assert_eq!(st.get_pitch(), 0);
    assert_eq!(st.get_yaw(), 0);
    assert_eq!(st.get_velocity_x(), 0);
    assert_eq!(st.get_velocity_y(), 0);
    assert_eq!(st.get_velocity_z(), 0);
    assert_eq!(st.get_teperature_min(), 0);
    assert_eq!(st.get_teperature_max(), 0);
    assert_eq!(st.tof_value, 0);
    assert_eq!(st.get_height(), 0);
    assert_eq!(st.get_battery(), 0);
    assert_eq!(st.get_barometer_height(), b"0.0".to_vec());
    assert_eq!(st.get_time(), 0);
    assert_eq!(st.get_accel_x(), b"0.0".to_vec());
    assert_eq!(st.get_accel_y(), b"0.0".to_vec());
    assert_eq!(st.get_accel_z(), b"0.0".to_vec());
}

#[test]
fn missing_key_keeps_previous_snapshot() {
    let mut st = State::new();
    st.ingest_frame(GOOD_FRAME);
    let before = st.copy_value();
    // No "bat" field: the whole frame is dropped.
    st.ingest_frame(
        b"pitch:9;roll:9;yaw:9;vgx:9;vgy:9;vgz:9;templ:9;temph:9;tof:9;h:9;baro:9.9;time:9;agx:9.9;agy:9.9;agz:9.9;",
    );
    assert_states_equal(&st, &before);
}

#[test]
fn unparseable_value_keeps_previous_snapshot() {
    let mut st = State::new();
    st.ingest_frame(GOOD_FRAME);
    let before = st.copy_value();
    st.ingest_frame(
        b"pitch:0;roll:1;yaw:2;vgx:0;vgy:0;vgz:0;templ:60;temph:65;tof:100;h:50;bat:abc;baro:1.23;time:42;agx:0.0;agy:0.0;agz:-1000.0;",
    );
    assert_states_equal(&st, &before);
}

#[test]
fn unsigned_field_rejects_minus() {
    let mut st = State::new();
    let before = st.copy_value();
    st.ingest_frame(
        b"pitch:0;roll:1;yaw:2;vgx:0;vgy:0;vgz:0;templ:-1;temph:65;tof:100;h:50;bat:77;baro:1.23;time:42;agx:0.0;agy:0.0;agz:-1000.0;",
    );
    assert_states_equal(&st, &before);
}

#[test]
fn out_of_range_value_keeps_previous_snapshot() {
    let mut st = State::new();
    let before = st.copy_value();
    st.ingest_frame(
        b"pitch:0;roll:32768;yaw:2;vgx:0;vgy:0;vgz:0;templ:60;temph:65;tof:100;h:50;bat:77;baro:1.23;time:42;agx:0.0;agy:0.0;agz:-1000.0;",
    );
    assert_states_equal(&st, &before);
}

#[test]
fn signed_range_ends_are_accepted() {
    let mut st = State::new();
    st.ingest_frame(
        b"pitch:-32768;roll:32767;yaw:+2;vgx:0;vgy:0;vgz:0;templ:60;temph:65;tof:100;h:50;bat:77;baro:1.23;time:65535;agx:0.0;agy:0.0;agz:-1000.0;",
    );
    assert_eq!(st.get_pitch(), -32768);
    assert_eq!(st.get_roll(), 32767);
    assert_eq!(st.get_yaw(), 2);
    assert_eq!(st.get_time(), 65535);
}

#[test]
fn duplicate_key_last_occurrence_wins() {
    let mut st = State::new();
    st.ingest_frame(
        b"bat:11;pitch:0;roll:1;yaw:2;vgx:0;vgy:0;vgz:0;templ:60;temph:65;tof:100;h:50;bat:88;baro:1.23;time:42;agx:0.0;agy:0.0;agz:-1000.0;",
    );
    assert_eq!(st.get_battery(), 88);
}

#[test]
fn short_and_colonless_tokens_are_skipped() {
    let mut st = State::new();
    st.ingest_frame(
        b";x;junk;pitch:0;roll:1;yaw:2;vgx:0;vgy:0;vgz:0;templ:60;temph:65;tof:100;h:50;bat:77;baro:1.23;time:42;agx:0.0;agy:0.0;agz:-1000.0;;",
    );
    assert_eq!(st.get_roll(), 1);
    assert_eq!(st.get_battery(), 77);
}

#[test]
fn frame_with_surrounding_whitespace_is_accepted() {
    let mut st = State::new();
    st.ingest_frame(
        b"  pitch:0;roll:3;yaw:2;vgx:0;vgy:0;vgz:0;templ:60;temph:65;tof:100;h:50;bat:77;baro:1.23;time:42;agx:0.0;agy:0.0;agz:-1000.0;\r\n",
    );
    assert_eq!(st.get_roll(), 3);
}

#[test]
fn value_with_second_colon_fails_numeric_parse() {
    let mut st = State::new();
    let before = st.copy_value();
    st.ingest_frame(
        b"pitch:0;roll:1:2;yaw:2;vgx:0;vgy:0;vgz:0;templ:60;temph:65;tof:100;h:50;bat:77;baro:1.23;time:42;agx:0.0;agy:0.0;agz:-1000.0;",
    );
    assert_states_equal(&st, &before);
}

#[test]
fn bad_float_text_keeps_previous_snapshot() {
    let mut st = State::new();
    let before = st.copy_value();
    st.ingest_frame(
        b"pitch:0;roll:1;yaw:2;vgx:0;vgy:0;vgz:0;templ:60;temph:65;tof:100;h:50;bat:77;baro:1.2.3;time:42;agx:0.0;agy:0.0;agz:-1000.0;",
    );
    assert_states_equal(&st, &before);
}

#[test]
fn float_fields_keep_wire_text_verbatim() {
    let mut st = State::new();
    st.ingest_frame(
        b"pitch:0;roll:1;yaw:2;vgx:0;vgy:0;vgz:0;templ:60;temph:65;tof:100;h:50;bat:77;baro:-163.26;time:42;agx:+12.;agy:.5;agz:1e-3;",
    );
    assert_eq!(st.get_barometer_height(), b"-163.26".to_vec());
    assert_eq!(st.get_accel_x(), b"+12.".to_vec());
    assert_eq!(st.get_accel_y(), b".5".to_vec());
    assert_eq!(st.get_accel_z(), b"1e-3".to_vec());
    // Every stored float text parses as f32 for a host layer.
    let t = String::from_utf8(st.get_barometer_height()).unwrap();
    assert_eq!(t.parse::<f32>().unwrap(), -163.26f32);
}

#[test]
fn copy_value_equals_source() {
    let mut st = State::new();
    st.ingest_frame(GOOD_FRAME);
    let copy = st.copy_value();
    assert_states_equal(&st, &copy);
}
