//! The telemetry snapshot and the frame parser.
//!
//! A telemetry datagram is ASCII text of `key:value` fields separated by
//! `;`.  A frame replaces the snapshot only when every required key is
//! present with a value that parses to its expected numeric type; otherwise
//! the frame is dropped and the previous snapshot is kept unchanged.

use vstd::prelude::*;
use crate::text::ascii_of;
use crate::text::bytes_eq;
use crate::text::find_byte;
use crate::text::find_first;
use crate::text::split_bytes;
use crate::text::split_seq;
use crate::text::str_bytes;
use crate::text::trim;
use crate::text::trim_seq;
use crate::num::int_text_val;
use crate::num::is_float_text;
use crate::num::is_float_text_x;
use crate::num::is_i16_text;
use crate::num::is_u16_text;
use crate::num::is_u8_text;
use crate::num::parse_i16;
use crate::num::parse_u16;
use crate::num::parse_u8;

verus! {

pub open spec fn roll_key() -> Seq<u8> {
    ascii_of("roll"@)
}

pub open spec fn pitch_key() -> Seq<u8> {
    ascii_of("pitch"@)
}

pub open spec fn yaw_key() -> Seq<u8> {
    ascii_of("yaw"@)
}

pub open spec fn vgx_key() -> Seq<u8> {
    ascii_of("vgx"@)
}

pub open spec fn vgy_key() -> Seq<u8> {
    ascii_of("vgy"@)
}

pub open spec fn vgz_key() -> Seq<u8> {
    ascii_of("vgz"@)
}

pub open spec fn templ_key() -> Seq<u8> {
    ascii_of("templ"@)
}

pub open spec fn temph_key() -> Seq<u8> {
    ascii_of("temph"@)
}

pub open spec fn tof_key() -> Seq<u8> {
    ascii_of("tof"@)
}

pub open spec fn h_key() -> Seq<u8> {
    ascii_of("h"@)
}

pub open spec fn bat_key() -> Seq<u8> {
    ascii_of("bat"@)
}

pub open spec fn baro_key() -> Seq<u8> {
    ascii_of("baro"@)
}

pub open spec fn time_key() -> Seq<u8> {
    ascii_of("time"@)
}

pub open spec fn agx_key() -> Seq<u8> {
    ascii_of("agx"@)
}

pub open spec fn agy_key() -> Seq<u8> {
    ascii_of("agy"@)
}

pub open spec fn agz_key() -> Seq<u8> {
    ascii_of("agz"@)
}

/// A token survives splitting when it is longer than one byte and has a
/// `:` in it.
pub open spec fn token_kept(t: Seq<u8>) -> bool {
    t.len() > 1 && find_first(t, 58) >= 0
}

/// The part of a token before its first `:`.
pub open spec fn token_key(t: Seq<u8>) -> Seq<u8> {
    t.take(find_first(t, 58))
}

/// The part of a token after its first `:`.
pub open spec fn token_val(t: Seq<u8>) -> Seq<u8> {
    t.skip(find_first(t, 58) + 1)
}

/// The value of the last surviving token whose key is `key`.
pub open spec fn last_value(toks: Seq<Seq<u8>>, key: Seq<u8>) -> Option<Seq<u8>>
    decreases toks.len(),
{
    if toks.len() == 0 {
        Option::None
    } else if token_kept(toks.last()) && token_key(toks.last()) == key {
        Option::Some(token_val(toks.last()))
    } else {
        last_value(toks.drop_last(), key)
    }
}

/// The value `key` carries in `frame`: the frame is trimmed, split on `;`,
/// and the last surviving `key:value` token wins.
pub open spec fn field_text(frame: Seq<u8>, key: Seq<u8>) -> Option<Seq<u8>> {
    last_value(split_seq(trim_seq(frame), 59), key)
}

pub open spec fn some_of(o: Option<Seq<u8>>) -> Seq<u8> {
    match o {
        Option::Some(v) => v,
        Option::None => Seq::empty(),
    }
}

pub open spec fn i16_field_ok(frame: Seq<u8>, key: Seq<u8>) -> bool {
    match field_text(frame, key) {
        Option::Some(v) => is_i16_text(v),
        Option::None => false,
    }
}

pub open spec fn u8_field_ok(frame: Seq<u8>, key: Seq<u8>) -> bool {
    match field_text(frame, key) {
        Option::Some(v) => is_u8_text(v),
        Option::None => false,
    }
}

pub open spec fn u16_field_ok(frame: Seq<u8>, key: Seq<u8>) -> bool {
    match field_text(frame, key) {
        Option::Some(v) => is_u16_text(v),
        Option::None => false,
    }
}

pub open spec fn float_field_ok(frame: Seq<u8>, key: Seq<u8>) -> bool {
    match field_text(frame, key) {
        Option::Some(v) => is_float_text(v),
        Option::None => false,
    }
}

/// Whether every required key is present with a parseable value.
pub open spec fn frame_ok(frame: Seq<u8>) -> bool {
    &&& i16_field_ok(frame, roll_key())
    &&& i16_field_ok(frame, pitch_key())
    &&& i16_field_ok(frame, yaw_key())
    &&& i16_field_ok(frame, vgx_key())
    &&& i16_field_ok(frame, vgy_key())
    &&& i16_field_ok(frame, vgz_key())
    &&& u8_field_ok(frame, templ_key())
    &&& u8_field_ok(frame, temph_key())
    &&& i16_field_ok(frame, tof_key())
    &&& i16_field_ok(frame, h_key())
    &&& u8_field_ok(frame, bat_key())
    &&& float_field_ok(frame, baro_key())
    &&& u16_field_ok(frame, time_key())
    &&& float_field_ok(frame, agx_key())
    &&& float_field_ok(frame, agy_key())
    &&& float_field_ok(frame, agz_key())
}

/// The mathematical value of a snapshot: integers for the integer fields
/// and the verbatim value text for the floating-point fields.
pub ghost struct StateModel {
    pub roll: int,
    pub pitch: int,
    pub yaw: int,
    pub ground_velocity_x: int,
    pub ground_velocity_y: int,
    pub ground_velocity_z: int,
    pub temperature_minimum: int,
    pub temperature_maximum: int,
    pub tof_value: int,
    pub height: int,
    pub battery_percentage: int,
    pub barometer_height: Seq<u8>,
    pub time: int,
    pub ground_acceleration_x: Seq<u8>,
    pub ground_acceleration_y: Seq<u8>,
    pub ground_acceleration_z: Seq<u8>,
}

/// The snapshot a fully parseable frame denotes.
pub open spec fn state_of(frame: Seq<u8>) -> StateModel {
    StateModel {
        roll: int_text_val(some_of(field_text(frame, roll_key()))),
        pitch: int_text_val(some_of(field_text(frame, pitch_key()))),
        yaw: int_text_val(some_of(field_text(frame, yaw_key()))),
        ground_velocity_x: int_text_val(some_of(field_text(frame, vgx_key()))),
        ground_velocity_y: int_text_val(some_of(field_text(frame, vgy_key()))),
        ground_velocity_z: int_text_val(some_of(field_text(frame, vgz_key()))),
        temperature_minimum: int_text_val(some_of(field_text(frame, templ_key()))),
        temperature_maximum: int_text_val(some_of(field_text(frame, temph_key()))),
        tof_value: int_text_val(some_of(field_text(frame, tof_key()))),
        height: int_text_val(some_of(field_text(frame, h_key()))),
        battery_percentage: int_text_val(some_of(field_text(frame, bat_key()))),
        barometer_height: some_of(field_text(frame, baro_key())),
        time: int_text_val(some_of(field_text(frame, time_key()))),
        ground_acceleration_x: some_of(field_text(frame, agx_key())),
        ground_acceleration_y: some_of(field_text(frame, agy_key())),
        ground_acceleration_z: some_of(field_text(frame, agz_key())),
    }
}

/// The all-zero snapshot a client starts with.
pub open spec fn init_state() -> StateModel {
    StateModel {
        roll: 0,
        pitch: 0,
        yaw: 0,
        ground_velocity_x: 0,
        ground_velocity_y: 0,
        ground_velocity_z: 0,
        temperature_minimum: 0,
        temperature_maximum: 0,
        tof_value: 0,
        height: 0,
        battery_percentage: 0,
        barometer_height: ascii_of("0.0"@),
        time: 0,
        ground_acceleration_x: ascii_of("0.0"@),
        ground_acceleration_y: ascii_of("0.0"@),
        ground_acceleration_z: ascii_of("0.0"@),
    }
}

/// The most recently parsed telemetry values.  The floating-point valued
/// fields hold their wire text verbatim, checked to be float syntax, so
/// that a host layer can convert them without loss.
pub struct State {
    pub roll: i16,
    pub pitch: i16,
    pub yaw: i16,
    pub ground_velocity_x: i16,
    pub ground_velocity_y: i16,
    pub ground_velocity_z: i16,
    pub temperature_minimum: u8,
    pub temperature_maximum: u8,
    pub tof_value: i16,
    pub height: i16,
    pub battery_percentage: u8,
    pub barometer_height: Vec<u8>,
    pub time: u16,
    pub ground_acceleration_x: Vec<u8>,
    pub ground_acceleration_y: Vec<u8>,
    pub ground_acceleration_z: Vec<u8>,
}

impl View for State {
    type V = StateModel;

    open spec fn view(&self) -> StateModel {
        StateModel {
            roll: self.roll as int,
            pitch: self.pitch as int,
            yaw: self.yaw as int,
            ground_velocity_x: self.ground_velocity_x as int,
            ground_velocity_y: self.ground_velocity_y as int,
            ground_velocity_z: self.ground_velocity_z as int,
            temperature_minimum: self.temperature_minimum as int,
            temperature_maximum: self.temperature_maximum as int,
            tof_value: self.tof_value as int,
            height: self.height as int,
            battery_percentage: self.battery_percentage as int,
            barometer_height: self.barometer_height@,
            time: self.time as int,
            ground_acceleration_x: self.ground_acceleration_x@,
            ground_acceleration_y: self.ground_acceleration_y@,
            ground_acceleration_z: self.ground_acceleration_z@,
        }
    }
}

struct Slots {
    roll: Option<Vec<u8>>,
    pitch: Option<Vec<u8>>,
    yaw: Option<Vec<u8>>,
    vgx: Option<Vec<u8>>,
    vgy: Option<Vec<u8>>,
    vgz: Option<Vec<u8>>,
    templ: Option<Vec<u8>>,
    temph: Option<Vec<u8>>,
    tof: Option<Vec<u8>>,
    h: Option<Vec<u8>>,
    bat: Option<Vec<u8>>,
    baro: Option<Vec<u8>>,
    time: Option<Vec<u8>>,
    agx: Option<Vec<u8>>,
    agy: Option<Vec<u8>>,
    agz: Option<Vec<u8>>,
}

spec fn slot_is(o: Option<Vec<u8>>, toks: Seq<Seq<u8>>, key: Seq<u8>) -> bool {
    match o {
        Option::Some(v) => last_value(toks, key) == Option::Some(v@),
        Option::None => last_value(toks, key) is None,
    }
}

/// The sixteen required keys are pairwise distinct.
proof fn lemma_keys_distinct()
    ensures
        roll_key() != pitch_key(),
        roll_key() != yaw_key(),
        roll_key() != vgx_key(),
        roll_key() != vgy_key(),
        roll_key() != vgz_key(),
        roll_key() != templ_key(),
        roll_key() != temph_key(),
        roll_key() != tof_key(),
        roll_key() != h_key(),
        roll_key() != bat_key(),
        roll_key() != baro_key(),
        roll_key() != time_key(),
        roll_key() != agx_key(),
        roll_key() != agy_key(),
        roll_key() != agz_key(),
        pitch_key() != yaw_key(),
        pitch_key() != vgx_key(),
        pitch_key() != vgy_key(),
        pitch_key() != vgz_key(),
        pitch_key() != templ_key(),
        pitch_key() != temph_key(),
        pitch_key() != tof_key(),
        pitch_key() != h_key(),
        pitch_key() != bat_key(),
        pitch_key() != baro_key(),
        pitch_key() != time_key(),
        pitch_key() != agx_key(),
        pitch_key() != agy_key(),
        pitch_key() != agz_key(),
        yaw_key() != vgx_key(),
        yaw_key() != vgy_key(),
        yaw_key() != vgz_key(),
        yaw_key() != templ_key(),
        yaw_key() != temph_key(),
        yaw_key() != tof_key(),
        yaw_key() != h_key(),
        yaw_key() != bat_key(),
        yaw_key() != baro_key(),
        yaw_key() != time_key(),
        yaw_key() != agx_key(),
        yaw_key() != agy_key(),
        yaw_key() != agz_key(),
        vgx_key() != vgy_key(),
        vgx_key() != vgz_key(),
        vgx_key() != templ_key(),
        vgx_key() != temph_key(),
        vgx_key() != tof_key(),
        vgx_key() != h_key(),
        vgx_key() != bat_key(),
        vgx_key() != baro_key(),
        vgx_key() != time_key(),
        vgx_key() != agx_key(),
        vgx_key() != agy_key(),
        vgx_key() != agz_key(),
        vgy_key() != vgz_key(),
        vgy_key() != templ_key(),
        vgy_key() != temph_key(),
        vgy_key() != tof_key(),
        vgy_key() != h_key(),
        vgy_key() != bat_key(),
        vgy_key() != baro_key(),
        vgy_key() != time_key(),
        vgy_key() != agx_key(),
        vgy_key() != agy_key(),
        vgy_key() != agz_key(),
        vgz_key() != templ_key(),
        vgz_key() != temph_key(),
        vgz_key() != tof_key(),
        vgz_key() != h_key(),
        vgz_key() != bat_key(),
        vgz_key() != baro_key(),
        vgz_key() != time_key(),
        vgz_key() != agx_key(),
        vgz_key() != agy_key(),
        vgz_key() != agz_key(),
        templ_key() != temph_key(),
        templ_key() != tof_key(),
        templ_key() != h_key(),
        templ_key() != bat_key(),
        templ_key() != baro_key(),
        templ_key() != time_key(),
        templ_key() != agx_key(),
        templ_key() != agy_key(),
        templ_key() != agz_key(),
        temph_key() != tof_key(),
        temph_key() != h_key(),
        temph_key() != bat_key(),
        temph_key() != baro_key(),
        temph_key() != time_key(),
        temph_key() != agx_key(),
        temph_key() != agy_key(),
        temph_key() != agz_key(),
        tof_key() != h_key(),
        tof_key() != bat_key(),
        tof_key() != baro_key(),
        tof_key() != time_key(),
        tof_key() != agx_key(),
        tof_key() != agy_key(),
        tof_key() != agz_key(),
        h_key() != bat_key(),
        h_key() != baro_key(),
        h_key() != time_key(),
        h_key() != agx_key(),
        h_key() != agy_key(),
        h_key() != agz_key(),
        bat_key() != baro_key(),
        bat_key() != time_key(),
        bat_key() != agx_key(),
        bat_key() != agy_key(),
        bat_key() != agz_key(),
        baro_key() != time_key(),
        baro_key() != agx_key(),
        baro_key() != agy_key(),
        baro_key() != agz_key(),
        time_key() != agx_key(),
        time_key() != agy_key(),
        time_key() != agz_key(),
        agx_key() != agy_key(),
        agx_key() != agz_key(),
        agy_key() != agz_key(),
{
    reveal_strlit("roll");
    reveal_strlit("pitch");
    reveal_strlit("yaw");
    reveal_strlit("vgx");
    reveal_strlit("vgy");
    reveal_strlit("vgz");
    reveal_strlit("templ");
    reveal_strlit("temph");
    reveal_strlit("tof");
    reveal_strlit("h");
    reveal_strlit("bat");
    reveal_strlit("baro");
    reveal_strlit("time");
    reveal_strlit("agx");
    reveal_strlit("agy");
    reveal_strlit("agz");
    assert(roll_key().len() != pitch_key().len());
    assert(roll_key().len() != yaw_key().len());
    assert(roll_key().len() != vgx_key().len());
    assert(roll_key().len() != vgy_key().len());
    assert(roll_key().len() != vgz_key().len());
    assert(roll_key().len() != templ_key().len());
    assert(roll_key().len() != temph_key().len());
    assert(roll_key().len() != tof_key().len());
    assert(roll_key().len() != h_key().len());
    assert(roll_key().len() != bat_key().len());
    assert(roll_key()[0] != baro_key()[0]);
    assert(roll_key()[0] != time_key()[0]);
    assert(roll_key().len() != agx_key().len());
    assert(roll_key().len() != agy_key().len());
    assert(roll_key().len() != agz_key().len());
    assert(pitch_key().len() != yaw_key().len());
    assert(pitch_key().len() != vgx_key().len());
    assert(pitch_key().len() != vgy_key().len());
    assert(pitch_key().len() != vgz_key().len());
    assert(pitch_key()[0] != templ_key()[0]);
    assert(pitch_key()[0] != temph_key()[0]);
    assert(pitch_key().len() != tof_key().len());
    assert(pitch_key().len() != h_key().len());
    assert(pitch_key().len() != bat_key().len());
    assert(pitch_key().len() != baro_key().len());
    assert(pitch_key().len() != time_key().len());
    assert(pitch_key().len() != agx_key().len());
    assert(pitch_key().len() != agy_key().len());
    assert(pitch_key().len() != agz_key().len());
    assert(yaw_key()[0] != vgx_key()[0]);
    assert(yaw_key()[0] != vgy_key()[0]);
    assert(yaw_key()[0] != vgz_key()[0]);
    assert(yaw_key().len() != templ_key().len());
    assert(yaw_key().len() != temph_key().len());
    assert(yaw_key()[0] != tof_key()[0]);
    assert(yaw_key().len() != h_key().len());
    assert(yaw_key()[0] != bat_key()[0]);
    assert(yaw_key().len() != baro_key().len());
    assert(yaw_key().len() != time_key().len());
    assert(yaw_key()[0] != agx_key()[0]);
    assert(yaw_key()[0] != agy_key()[0]);
    assert(yaw_key()[0] != agz_key()[0]);
    assert(vgx_key()[2] != vgy_key()[2]);
    assert(vgx_key()[2] != vgz_key()[2]);
    assert(vgx_key().len() != templ_key().len());
    assert(vgx_key().len() != temph_key().len());
    assert(vgx_key()[0] != tof_key()[0]);
    assert(vgx_key().len() != h_key().len());
    assert(vgx_key()[0] != bat_key()[0]);
    assert(vgx_key().len() != baro_key().len());
    assert(vgx_key().len() != time_key().len());
    assert(vgx_key()[0] != agx_key()[0]);
    assert(vgx_key()[0] != agy_key()[0]);
    assert(vgx_key()[0] != agz_key()[0]);
    assert(vgy_key()[2] != vgz_key()[2]);
    assert(vgy_key().len() != templ_key().len());
    assert(vgy_key().len() != temph_key().len());
    assert(vgy_key()[0] != tof_key()[0]);
    assert(vgy_key().len() != h_key().len());
    assert(vgy_key()[0] != bat_key()[0]);
    assert(vgy_key().len() != baro_key().len());
    assert(vgy_key().len() != time_key().len());
    assert(vgy_key()[0] != agx_key()[0]);
    assert(vgy_key()[0] != agy_key()[0]);
    assert(vgy_key()[0] != agz_key()[0]);
    assert(vgz_key().len() != templ_key().len());
    assert(vgz_key().len() != temph_key().len());
    assert(vgz_key()[0] != tof_key()[0]);
    assert(vgz_key().len() != h_key().len());
    assert(vgz_key()[0] != bat_key()[0]);
    assert(vgz_key().len() != baro_key().len());
    assert(vgz_key().len() != time_key().len());
    assert(vgz_key()[0] != agx_key()[0]);
    assert(vgz_key()[0] != agy_key()[0]);
    assert(vgz_key()[0] != agz_key()[0]);
    assert(templ_key()[4] != temph_key()[4]);
    assert(templ_key().len() != tof_key().len());
    assert(templ_key().len() != h_key().len());
    assert(templ_key().len() != bat_key().len());
    assert(templ_key().len() != baro_key().len());
    assert(templ_key().len() != time_key().len());
    assert(templ_key().len() != agx_key().len());
    assert(templ_key().len() != agy_key().len());
    assert(templ_key().len() != agz_key().len());
    assert(temph_key().len() != tof_key().len());
    assert(temph_key().len() != h_key().len());
    assert(temph_key().len() != bat_key().len());
    assert(temph_key().len() != baro_key().len());
    assert(temph_key().len() != time_key().len());
    assert(temph_key().len() != agx_key().len());
    assert(temph_key().len() != agy_key().len());
    assert(temph_key().len() != agz_key().len());
    assert(tof_key().len() != h_key().len());
    assert(tof_key()[0] != bat_key()[0]);
    assert(tof_key().len() != baro_key().len());
    assert(tof_key().len() != time_key().len());
    assert(tof_key()[0] != agx_key()[0]);
    assert(tof_key()[0] != agy_key()[0]);
    assert(tof_key()[0] != agz_key()[0]);
    assert(h_key().len() != bat_key().len());
    assert(h_key().len() != baro_key().len());
    assert(h_key().len() != time_key().len());
    assert(h_key().len() != agx_key().len());
    assert(h_key().len() != agy_key().len());
    assert(h_key().len() != agz_key().len());
    assert(bat_key().len() != baro_key().len());
    assert(bat_key().len() != time_key().len());
    assert(bat_key()[0] != agx_key()[0]);
    assert(bat_key()[0] != agy_key()[0]);
    assert(bat_key()[0] != agz_key()[0]);
    assert(baro_key()[0] != time_key()[0]);
    assert(baro_key().len() != agx_key().len());
    assert(baro_key().len() != agy_key().len());
    assert(baro_key().len() != agz_key().len());
    assert(time_key().len() != agx_key().len());
    assert(time_key().len() != agy_key().len());
    assert(time_key().len() != agz_key().len());
    assert(agx_key()[2] != agy_key()[2]);
    assert(agx_key()[2] != agz_key()[2]);
    assert(agy_key()[2] != agz_key()[2]);
}

fn collect_fields(toks: &Vec<Vec<u8>>) -> (r: Slots)
    ensures
        slot_is(r.roll, toks.deep_view(), roll_key()),
        slot_is(r.pitch, toks.deep_view(), pitch_key()),
        slot_is(r.yaw, toks.deep_view(), yaw_key()),
        slot_is(r.vgx, toks.deep_view(), vgx_key()),
        slot_is(r.vgy, toks.deep_view(), vgy_key()),
        slot_is(r.vgz, toks.deep_view(), vgz_key()),
        slot_is(r.templ, toks.deep_view(), templ_key()),
        slot_is(r.temph, toks.deep_view(), temph_key()),
        slot_is(r.tof, toks.deep_view(), tof_key()),
        slot_is(r.h, toks.deep_view(), h_key()),
        slot_is(r.bat, toks.deep_view(), bat_key()),
        slot_is(r.baro, toks.deep_view(), baro_key()),
        slot_is(r.time, toks.deep_view(), time_key()),
        slot_is(r.agx, toks.deep_view(), agx_key()),
        slot_is(r.agy, toks.deep_view(), agy_key()),
        slot_is(r.agz, toks.deep_view(), agz_key()),
{
    proof {
        reveal_strlit("roll");
        reveal_strlit("pitch");
        reveal_strlit("yaw");
        reveal_strlit("vgx");
        reveal_strlit("vgy");
        reveal_strlit("vgz");
        reveal_strlit("templ");
        reveal_strlit("temph");
        reveal_strlit("tof");
        reveal_strlit("h");
        reveal_strlit("bat");
        reveal_strlit("baro");
        reveal_strlit("time");
        reveal_strlit("agx");
        reveal_strlit("agy");
        reveal_strlit("agz");
    }
    let k_roll = str_bytes("roll");
    let k_pitch = str_bytes("pitch");
    let k_yaw = str_bytes("yaw");
    let k_vgx = str_bytes("vgx");
    let k_vgy = str_bytes("vgy");
    let k_vgz = str_bytes("vgz");
    let k_templ = str_bytes("templ");
    let k_temph = str_bytes("temph");
    let k_tof = str_bytes("tof");
    let k_h = str_bytes("h");
    let k_bat = str_bytes("bat");
    let k_baro = str_bytes("baro");
    let k_time = str_bytes("time");
    let k_agx = str_bytes("agx");
    let k_agy = str_bytes("agy");
    let k_agz = str_bytes("agz");
    let mut slots = Slots {
        roll: None,
        pitch: None,
        yaw: None,
        vgx: None,
        vgy: None,
        vgz: None,
        templ: None,
        temph: None,
        tof: None,
        h: None,
        bat: None,
        baro: None,
        time: None,
        agx: None,
        agy: None,
        agz: None,
    };
    let ghost gtoks = toks.deep_view();
    assert(gtoks.take(0) =~= Seq::<Seq<u8>>::empty());
    let mut idx: usize = 0;
    while idx < toks.len()
        invariant
            0 <= idx <= toks@.len(),
            gtoks == toks.deep_view(),
            gtoks.len() == toks@.len(),
            k_roll@ == roll_key(),
            k_pitch@ == pitch_key(),
            k_yaw@ == yaw_key(),
            k_vgx@ == vgx_key(),
            k_vgy@ == vgy_key(),
            k_vgz@ == vgz_key(),
            k_templ@ == templ_key(),
            k_temph@ == temph_key(),
            k_tof@ == tof_key(),
            k_h@ == h_key(),
            k_bat@ == bat_key(),
            k_baro@ == baro_key(),
            k_time@ == time_key(),
            k_agx@ == agx_key(),
            k_agy@ == agy_key(),
            k_agz@ == agz_key(),
            slot_is(slots.roll, gtoks.take(idx as int), roll_key()),
            slot_is(slots.pitch, gtoks.take(idx as int), pitch_key()),
            slot_is(slots.yaw, gtoks.take(idx as int), yaw_key()),
            slot_is(slots.vgx, gtoks.take(idx as int), vgx_key()),
            slot_is(slots.vgy, gtoks.take(idx as int), vgy_key()),
            slot_is(slots.vgz, gtoks.take(idx as int), vgz_key()),
            slot_is(slots.templ, gtoks.take(idx as int), templ_key()),
            slot_is(slots.temph, gtoks.take(idx as int), temph_key()),
            slot_is(slots.tof, gtoks.take(idx as int), tof_key()),
            slot_is(slots.h, gtoks.take(idx as int), h_key()),
            slot_is(slots.bat, gtoks.take(idx as int), bat_key()),
            slot_is(slots.baro, gtoks.take(idx as int), baro_key()),
            slot_is(slots.time, gtoks.take(idx as int), time_key()),
            slot_is(slots.agx, gtoks.take(idx as int), agx_key()),
            slot_is(slots.agy, gtoks.take(idx as int), agy_key()),
            slot_is(slots.agz, gtoks.take(idx as int), agz_key()),
        decreases toks@.len() - idx,
    {
        let t = &toks[idx];
        let ghost tv = toks@[idx as int]@;
        let ghost prefix = gtoks.take(idx as int);
        let ghost next = gtoks.take(idx as int + 1);
        proof {
            lemma_keys_distinct();
            assert(toks@[idx as int].deep_view() =~= tv);
            assert(gtoks[idx as int] == toks@[idx as int].deep_view());
            assert(next.drop_last() =~= prefix);
            assert(next.last() == tv);
        }
        if t.len() > 1 {
            match find_byte(t.as_slice(), 58) {
                Some(c) => {
                    assert(token_kept(tv));
                    let keyb = &t.as_slice()[0..c];
                    let valv = vstd::slice::slice_to_vec(&t.as_slice()[c + 1..t.len()]);
                    proof {
                        assert(keyb@ =~= token_key(tv));
                        assert(valv@ =~= token_val(tv));
                    }
                    if bytes_eq(keyb, k_roll.as_slice()) {
                        slots.roll = Some(valv);
                    } else if bytes_eq(keyb, k_pitch.as_slice()) {
                        slots.pitch = Some(valv);
                    } else if bytes_eq(keyb, k_yaw.as_slice()) {
                        slots.yaw = Some(valv);
                    } else if bytes_eq(keyb, k_vgx.as_slice()) {
                        slots.vgx = Some(valv);
                    } else if bytes_eq(keyb, k_vgy.as_slice()) {
                        slots.vgy = Some(valv);
                    } else if bytes_eq(keyb, k_vgz.as_slice()) {
                        slots.vgz = Some(valv);
                    } else if bytes_eq(keyb, k_templ.as_slice()) {
                        slots.templ = Some(valv);
                    } else if bytes_eq(keyb, k_temph.as_slice()) {
                        slots.temph = Some(valv);
                    } else if bytes_eq(keyb, k_tof.as_slice()) {
                        slots.tof = Some(valv);
                    } else if bytes_eq(keyb, k_h.as_slice()) {
                        slots.h = Some(valv);
                    } else if bytes_eq(keyb, k_bat.as_slice()) {
                        slots.bat = Some(valv);
                    } else if bytes_eq(keyb, k_baro.as_slice()) {
                        slots.baro = Some(valv);
                    } else if bytes_eq(keyb, k_time.as_slice()) {
                        slots.time = Some(valv);
                    } else if bytes_eq(keyb, k_agx.as_slice()) {
                        slots.agx = Some(valv);
                    } else if bytes_eq(keyb, k_agy.as_slice()) {
                        slots.agy = Some(valv);
                    } else if bytes_eq(keyb, k_agz.as_slice()) {
                        slots.agz = Some(valv);
                    } else {
                    }
                },
                None => {
                    assert(!token_kept(tv));
                },
            }
        } else {
            assert(!token_kept(tv));
        }
        idx = idx + 1;
    }
    proof {
        assert(gtoks.take(toks@.len() as int) =~= gtoks);
    }
    slots
}

/// Parses one telemetry frame; `None` exactly when the frame must be
/// dropped.
pub fn parse_state(frame: &[u8]) -> (r: Option<State>)
    ensures
        r is Some <==> frame_ok(frame@),
        r matches Some(s) ==> s@ == state_of(frame@),
{
    let trimmed = trim(frame);
    let toks = split_bytes(trimmed, 59);
    let slots = collect_fields(&toks);
    proof {
        assert(toks.deep_view() == split_seq(trim_seq(frame@), 59));
    }
    let roll_v = match &slots.roll {
        Some(v) => {
            match parse_i16(v.as_slice()) {
                Some(x) => x,
                None => {
                    return None;
                },
            }
        },
        None => {
            return None;
        },
    };
    let pitch_v = match &slots.pitch {
        Some(v) => {
            match parse_i16(v.as_slice()) {
                Some(x) => x,
                None => {
                    return None;
                },
            }
        },
        None => {
            return None;
        },
    };
    let yaw_v = match &slots.yaw {
        Some(v) => {
            match parse_i16(v.as_slice()) {
                Some(x) => x,
                None => {
                    return None;
                },
            }
        },
        None => {
            return None;
        },
    };
    let vgx_v = match &slots.vgx {
        Some(v) => {
            match parse_i16(v.as_slice()) {
                Some(x) => x,
                None => {
                    return None;
                },
            }
        },
        None => {
            return None;
        },
    };
    let vgy_v = match &slots.vgy {
        Some(v) => {
            match parse_i16(v.as_slice()) {
                Some(x) => x,
                None => {
                    return None;
                },
            }
        },
        None => {
            return None;
        },
    };
    let vgz_v = match &slots.vgz {
        Some(v) => {
            match parse_i16(v.as_slice()) {
                Some(x) => x,
                None => {
                    return None;
                },
            }
        },
        None => {
            return None;
        },
    };
    let templ_v = match &slots.templ {
        Some(v) => {
            match parse_u8(v.as_slice()) {
                Some(x) => x,
                None => {
                    return None;
                },
            }
        },
        None => {
            return None;
        },
    };
    let temph_v = match &slots.temph {
        Some(v) => {
            match parse_u8(v.as_slice()) {
                Some(x) => x,
                None => {
                    return None;
                },
            }
        },
        None => {
            return None;
        },
    };
    let tof_v = match &slots.tof {
        Some(v) => {
            match parse_i16(v.as_slice()) {
                Some(x) => x,
                None => {
                    return None;
                },
            }
        },
        None => {
            return None;
        },
    };
    let h_v = match &slots.h {
        Some(v) => {
            match parse_i16(v.as_slice()) {
                Some(x) => x,
                None => {
                    return None;
                },
            }
        },
        None => {
            return None;
        },
    };
    let bat_v = match &slots.bat {
        Some(v) => {
            match parse_u8(v.as_slice()) {
                Some(x) => x,
                None => {
                    return None;
                },
            }
        },
        None => {
            return None;
        },
    };
    let baro_v = match slots.baro {
        Some(v) => {
            if is_float_text_x(v.as_slice()) {
                v
            } else {
                return None;
            }
        },
        None => {
            return None;
        },
    };
    let time_v = match &slots.time {
        Some(v) => {
            match parse_u16(v.as_slice()) {
                Some(x) => x,
                None => {
                    return None;
                },
            }
        },
        None => {
            return None;
        },
    };
    let agx_v = match slots.agx {
        Some(v) => {
            if is_float_text_x(v.as_slice()) {
                v
            } else {
                return None;
            }
        },
        None => {
            return None;
        },
    };
    let agy_v = match slots.agy {
        Some(v) => {
            if is_float_text_x(v.as_slice()) {
                v
            } else {
                return None;
            }
        },
        None => {
            return None;
        },
    };
    let agz_v = match slots.agz {
        Some(v) => {
            if is_float_text_x(v.as_slice()) {
                v
            } else {
                return None;
            }
        },
        None => {
            return None;
        },
    };
    let st = State {
        roll: roll_v,
        pitch: pitch_v,
        yaw: yaw_v,
        ground_velocity_x: vgx_v,
        ground_velocity_y: vgy_v,
        ground_velocity_z: vgz_v,
        temperature_minimum: templ_v,
        temperature_maximum: temph_v,
        tof_value: tof_v,
        height: h_v,
        battery_percentage: bat_v,
        barometer_height: baro_v,
        time: time_v,
        ground_acceleration_x: agx_v,
        ground_acceleration_y: agy_v,
        ground_acceleration_z: agz_v,
    };
    Some(st)
}

impl State {
    /// A snapshot with every field zero.
    pub fn new() -> (r: State)
        ensures
            r@ == init_state(),
    {
        proof {
            reveal_strlit("0.0");
        }
        let r = State {
            roll: 0,
            pitch: 0,
            yaw: 0,
            ground_velocity_x: 0,
            ground_velocity_y: 0,
            ground_velocity_z: 0,
            temperature_minimum: 0,
            temperature_maximum: 0,
            tof_value: 0,
            height: 0,
            battery_percentage: 0,
            barometer_height: str_bytes("0.0"),
            time: 0,
            ground_acceleration_x: str_bytes("0.0"),
            ground_acceleration_y: str_bytes("0.0"),
            ground_acceleration_z: str_bytes("0.0"),
        };
        r
    }

    /// Processes one telemetry datagram: a fully parseable frame replaces
    /// the whole snapshot; any other frame leaves it unchanged.
    pub fn ingest_frame(&mut self, frame: &[u8])
        ensures
            frame_ok(frame@) ==> final(self)@ == state_of(frame@),
            !frame_ok(frame@) ==> final(self)@ == old(self)@,
    {
        match parse_state(frame) {
            Some(s) => {
                *self = s;
            },
            None => {},
        }
    }

    /// The read-copy of the snapshot store: an equal-valued copy a caller
    /// keeps after the store's lock scope ends.
    pub fn copy_value(&self) -> (r: State)
        ensures
            r@ == self@,
    {
        State {
            roll: self.roll,
            pitch: self.pitch,
            yaw: self.yaw,
            ground_velocity_x: self.ground_velocity_x,
            ground_velocity_y: self.ground_velocity_y,
            ground_velocity_z: self.ground_velocity_z,
            temperature_minimum: self.temperature_minimum,
            temperature_maximum: self.temperature_maximum,
            tof_value: self.tof_value,
            height: self.height,
            battery_percentage: self.battery_percentage,
            barometer_height: vstd::slice::slice_to_vec(self.barometer_height.as_slice()),
            time: self.time,
            ground_acceleration_x: vstd::slice::slice_to_vec(self.ground_acceleration_x.as_slice()),
            ground_acceleration_y: vstd::slice::slice_to_vec(self.ground_acceleration_y.as_slice()),
            ground_acceleration_z: vstd::slice::slice_to_vec(self.ground_acceleration_z.as_slice()),
        }
    }

    pub fn get_roll(&self) -> (r: i16)
        ensures
            r as int == self@.roll,
    {
        self.roll
    }

    pub fn get_pitch(&self) -> (r: i16)
        ensures
            r as int == self@.pitch,
    {
        self.pitch
    }

    pub fn get_yaw(&self) -> (r: i16)
        ensures
            r as int == self@.yaw,
    {
        self.yaw
    }

    pub fn get_velocity_x(&self) -> (r: i16)
        ensures
            r as int == self@.ground_velocity_x,
    {
        self.ground_velocity_x
    }

    pub fn get_velocity_y(&self) -> (r: i16)
        ensures
            r as int == self@.ground_velocity_y,
    {
        self.ground_velocity_y
    }

    pub fn get_velocity_z(&self) -> (r: i16)
        ensures
            r as int == self@.ground_velocity_z,
    {
        self.ground_velocity_z
    }

    pub fn get_teperature_min(&self) -> (r: u8)
        ensures
            r as int == self@.temperature_minimum,
    {
        self.temperature_minimum
    }

    pub fn get_teperature_max(&self) -> (r: u8)
        ensures
            r as int == self@.temperature_maximum,
    {
        self.temperature_maximum
    }

    pub fn get_height(&self) -> (r: i16)
        ensures
            r as int == self@.height,
    {
        self.height
    }

    pub fn get_battery(&self) -> (r: u8)
        ensures
            r as int == self@.battery_percentage,
    {
        self.battery_percentage
    }

    pub fn get_barometer_height(&self) -> (r: Vec<u8>)
        ensures
            r@ == self@.barometer_height,
    {
        vstd::slice::slice_to_vec(self.barometer_height.as_slice())
    }

    pub fn get_time(&self) -> (r: u16)
        ensures
            r as int == self@.time,
    {
        self.time
    }

    pub fn get_accel_x(&self) -> (r: Vec<u8>)
        ensures
            r@ == self@.ground_acceleration_x,
    {
        vstd::slice::slice_to_vec(self.ground_acceleration_x.as_slice())
    }

    pub fn get_accel_y(&self) -> (r: Vec<u8>)
        ensures
            r@ == self@.ground_acceleration_y,
    {
        vstd::slice::slice_to_vec(self.ground_acceleration_y.as_slice())
    }

    pub fn get_accel_z(&self) -> (r: Vec<u8>)
        ensures
            r@ == self@.ground_acceleration_z,
    {
        vstd::slice::slice_to_vec(self.ground_acceleration_z.as_slice())
    }

    /// The time-of-flight distance accessor.
    pub fn get_teperature_mix(&self) -> (r: i16)
        ensures
            r as int == self@.tof_value,
    {
        self.tof_value
    }

}

} // verus!
