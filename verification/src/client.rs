//! The client core: lifecycle state, command admission, and the command
//! catalog that formats wire strings.
//!
//! The core holds no sockets.  A transport layer drives it: it sends the
//! wire bytes a [`CommandRequest`] carries, feeds received datagrams to
//! [`crate::telemetry::State::ingest_frame`] and
//! [`crate::ack::AckSignal::observe`], and runs the ack wait loop through
//! [`crate::ack::poll_ack`].

use vstd::prelude::*;
use crate::num::dec_int_rep;
use crate::num::dec_rep;
use crate::num::fmt_i8;
use crate::num::fmt_u64;
use crate::telemetry::State;
use crate::text::ascii_of;
use crate::text::bytes_eq;
use crate::text::char_utf8;
use crate::text::contains_bytes;
use crate::text::contains_seq;
use crate::text::push_char;
use crate::text::str_bytes;
use crate::TelloError;

verus! {

/// How long an ack-awaiting issue call waits before failing, unless the
/// client configures another window.
pub const DEFAULT_ACK_TIMEOUT_MS: u64 = 10000;

/// The sleep quantum of the wait loop inside an ack-awaiting issue call.
pub const ACK_WAIT_INTERVAL_MS: u64 = 50;

/// The sleep quantum of the ack listener loop.
pub const LISTENER_POLL_INTERVAL_MS: u64 = 20;

/// The sleep quantum of the telemetry receiver loop.
pub const TELEMETRY_POLL_INTERVAL_MS: u64 = 50;

pub open spec fn wifi_text() -> Seq<u8> {
    ascii_of("wifi"@)
}

pub open spec fn rmtt_text() -> Seq<u8> {
    ascii_of("RMTT"@)
}

pub open spec fn space() -> Seq<u8> {
    seq![32u8]
}

/// A command may reach the wire only when its text does not contain
/// "wifi": changing network credentials is disallowed at this boundary.
pub open spec fn command_allowed(cmd: Seq<u8>) -> bool {
    !contains_seq(cmd, wifi_text())
}

/// What an issue call does with a command before any ack handling.
#[derive(Clone, Copy, Debug, PartialEq, Eq, Structural)]
pub enum IssueAction {
    /// The command text contains "wifi": refused, nothing is sent.
    Refused,
    /// Send the datagram and return success at once, without the wait loop.
    SendOnly,
    /// Send the datagram, then poll the ack signal until consume or timeout.
    SendAndAwait,
}

/// The admission decision of an issue call.
pub open spec fn issue_plan(cmd: Seq<u8>, await_ack: bool) -> IssueAction {
    if !command_allowed(cmd) {
        IssueAction::Refused
    } else if await_ack {
        IssueAction::SendAndAwait
    } else {
        IssueAction::SendOnly
    }
}

/// Decides what an issue call does with `cmd`, before any network traffic.
pub fn plan_issue(cmd: &[u8], await_ack: bool) -> (r: IssueAction)
    ensures
        r == issue_plan(cmd@, await_ack),
{
    proof {
        reveal_strlit("wifi");
        assert(("wifi").is_ascii());
    }
    let w_wifi = str_bytes("wifi");
    if contains_bytes(cmd, w_wifi.as_slice()) {
        IssueAction::Refused
    } else if await_ack {
        IssueAction::SendAndAwait
    } else {
        IssueAction::SendOnly
    }
}

/// Admission check alone: refuses exactly the commands containing "wifi".
pub fn check_command(cmd: &[u8]) -> (r: Result<(), TelloError>)
    ensures
        r is Ok <==> command_allowed(cmd@),
        r matches Err(e) ==> e matches TelloError::CredentialCommandRefused,
{
    match plan_issue(cmd, false) {
        IssueAction::Refused => Err(TelloError::CredentialCommandRefused),
        _ => Ok(()),
    }
}

/// A command with "wifi" in its text is planned as refused, whatever the
/// ack mode: no datagram is ever placed on the wire for it.
pub proof fn lemma_wifi_never_sent(cmd: Seq<u8>, await_ack: bool)
    requires
        contains_seq(cmd, wifi_text()),
    ensures
        issue_plan(cmd, await_ack) == IssueAction::Refused,
{
}

/// An allowed command issued without awaiting an ack is planned as an
/// immediate success: it is sent, and the wait loop is never entered.
pub proof fn lemma_no_wait_without_ack(cmd: Seq<u8>)
    requires
        command_allowed(cmd),
    ensures
        issue_plan(cmd, false) == IssueAction::SendOnly,
{
}

/// The success value of an issue call that awaits no ack: the original
/// command text, carried back as a no-op marker.
pub fn no_ack_success(cmd: &[u8]) -> (r: Vec<u8>)
    ensures
        r@ == cmd@,
{
    vstd::slice::slice_to_vec(cmd)
}

/// A command datagram lined up for sending, with its ack mode.
#[derive(Clone, Debug, PartialEq, Eq)]
pub struct CommandRequest {
    /// The exact bytes to place on the wire.
    pub wire: Vec<u8>,
    /// Whether the issue call waits for an acknowledgment.
    pub await_ack: bool,
}

/// The direction of a flip maneuver.
#[derive(Clone, Copy, Debug, PartialEq, Eq, Structural)]
pub enum Flip {
    Left,
    Right,
    Forward,
    Backward,
}

pub open spec fn flip_char(f: Flip) -> char {
    match f {
        Flip::Left => 'l',
        Flip::Right => 'r',
        Flip::Forward => 'f',
        Flip::Backward => 'b',
    }
}

impl Flip {
    /// The direction letter the wire format uses.
    pub fn value(self) -> (r: char)
        ensures
            r == flip_char(self),
    {
        match self {
            Flip::Left => 'l',
            Flip::Right => 'r',
            Flip::Forward => 'f',
            Flip::Backward => 'b',
        }
    }
}

fn push_lit(w: &mut Vec<u8>, s: &str)
    requires
        s.is_ascii(),
    ensures
        final(w)@ == old(w)@ + ascii_of(s@),
{
    let mut d = str_bytes(s);
    w.append(&mut d);
}

fn push_u64(w: &mut Vec<u8>, v: u64)
    ensures
        final(w)@ == old(w)@ + dec_rep(v as int),
{
    let mut d = fmt_u64(v);
    w.append(&mut d);
}

fn push_sep_u64(w: &mut Vec<u8>, v: u64)
    ensures
        final(w)@ == old(w)@ + space() + dec_rep(v as int),
{
    w.push(32);
    let mut d = fmt_u64(v);
    w.append(&mut d);
    assert(w@ =~= old(w)@ + space() + dec_rep(v as int));
}

fn push_sep_i8(w: &mut Vec<u8>, v: i8)
    ensures
        final(w)@ == old(w)@ + space() + dec_int_rep(v as int),
{
    w.push(32);
    let mut d = fmt_i8(v);
    w.append(&mut d);
    assert(w@ =~= old(w)@ + space() + dec_int_rep(v as int));
}

fn push_slice(w: &mut Vec<u8>, s: &[u8])
    ensures
        final(w)@ == old(w)@ + s@,
{
    let mut d = vstd::slice::slice_to_vec(s);
    w.append(&mut d);
}

/// The client core: the lifecycle running flag, the extended-hardware
/// capability flag, and the configured ack timeout.  The snapshot store and
/// the ack signal live beside it, shared with the background loops.
pub struct Tello {
    /// Whether the background loops are to keep polling.
    pub running: bool,
    /// Whether the connected unit answered the hardware probe with the
    /// extended-hardware identifier.
    pub has_robo: bool,
    /// The ack wait window of an awaiting issue call, in milliseconds.
    pub max_ack_ms: u64,
}

impl Tello {
    /// A disconnected client with the default ack timeout.
    pub fn new() -> (r: Tello)
        ensures
            !r.running,
            !r.has_robo,
            r.max_ack_ms == DEFAULT_ACK_TIMEOUT_MS,
    {
        Tello { running: false, has_robo: false, max_ack_ms: DEFAULT_ACK_TIMEOUT_MS }
    }

    /// The connect step before the handshake: raises the running flag so
    /// the background loops poll.
    pub fn start(&mut self)
        ensures
            final(self).running,
            final(self).has_robo == old(self).has_robo,
            final(self).max_ack_ms == old(self).max_ack_ms,
    {
        self.running = true;
    }

    /// Clears the running flag; both background loops observe it at the
    /// start of their next iteration and exit within one poll quantum.
    pub fn disconnect(&mut self)
        ensures
            !final(self).running,
            final(self).has_robo == old(self).has_robo,
            final(self).max_ack_ms == old(self).max_ack_ms,
    {
        self.running = false;
    }

    /// Records the outcome of the hardware probe: the capability flag is
    /// set exactly when the probe succeeded with the extended-hardware
    /// identifier; a failed or unrecognized probe leaves it unset.
    pub fn record_probe(&mut self, probe: &Result<Vec<u8>, TelloError>)
        ensures
            final(self).has_robo == (probe matches Ok(v) && v@ == rmtt_text()),
            final(self).running == old(self).running,
            final(self).max_ack_ms == old(self).max_ack_ms,
    {
        proof {
            reveal_strlit("RMTT");
            assert(("RMTT").is_ascii());
        }
        let w_rmtt = str_bytes("RMTT");
        match probe {
            Ok(v) => {
                self.has_robo = bytes_eq(v.as_slice(), w_rmtt.as_slice());
            },
            Err(_) => {
                self.has_robo = false;
            },
        }
    }

    pub fn get_running(&self) -> (r: bool)
        ensures
            r == self.running,
    {
        self.running
    }

    pub fn get_ack_ms(&self) -> (r: u64)
        ensures
            r == self.max_ack_ms,
    {
        self.max_ack_ms
    }

    pub fn set_ack_ms(&mut self, new: u64)
        ensures
            final(self).max_ack_ms == new,
            final(self).running == old(self).running,
            final(self).has_robo == old(self).has_robo,
    {
        self.max_ack_ms = new;
    }

    pub fn is_rmtt(&self) -> (r: bool)
        ensures
            r == self.has_robo,
    {
        self.has_robo
    }

    /// The handshake command switching the drone into command mode.
    pub fn command_mode(&self) -> (r: CommandRequest)
        ensures
            r.wire@ == ascii_of("command"@),
            r.await_ack == true,
    {
        proof {
            reveal_strlit("command");
            assert(("command").is_ascii());
        }
        CommandRequest { wire: str_bytes("command"), await_ack: true }
    }

    /// The capability probe whose answer [`Tello::record_probe`] records.
    pub fn hardware_probe(&self) -> (r: CommandRequest)
        ensures
            r.wire@ == ascii_of("hardware?"@),
            r.await_ack == true,
    {
        proof {
            reveal_strlit("hardware?");
            assert(("hardware?").is_ascii());
        }
        CommandRequest { wire: str_bytes("hardware?"), await_ack: true }
    }

    /// The automatic takeoff.
    pub fn take_off(&self) -> (r: CommandRequest)
        ensures
            r.wire@ == ascii_of("takeoff"@),
            r.await_ack == false,
    {
        proof {
            reveal_strlit("takeoff");
            assert(("takeoff").is_ascii());
        }
        CommandRequest { wire: str_bytes("takeoff"), await_ack: false }
    }

    /// The automated landing.
    pub fn land(&self) -> (r: CommandRequest)
        ensures
            r.wire@ == ascii_of("land"@),
            r.await_ack == true,
    {
        proof {
            reveal_strlit("land");
            assert(("land").is_ascii());
        }
        CommandRequest { wire: str_bytes("land"), await_ack: true }
    }

    /// Starts the camera stream.
    pub fn stream_on(&self) -> (r: CommandRequest)
        ensures
            r.wire@ == ascii_of("streamon"@),
            r.await_ack == true,
    {
        proof {
            reveal_strlit("streamon");
            assert(("streamon").is_ascii());
        }
        CommandRequest { wire: str_bytes("streamon"), await_ack: true }
    }

    /// Stops the camera stream.
    pub fn stream_off(&self) -> (r: CommandRequest)
        ensures
            r.wire@ == ascii_of("streamoff"@),
            r.await_ack == true,
    {
        proof {
            reveal_strlit("streamoff");
            assert(("streamoff").is_ascii());
        }
        CommandRequest { wire: str_bytes("streamoff"), await_ack: true }
    }

    /// Immediately stops all propellers.
    pub fn emergency(&self) -> (r: CommandRequest)
        ensures
            r.wire@ == ascii_of("emergency"@),
            r.await_ack == true,
    {
        proof {
            reveal_strlit("emergency");
            assert(("emergency").is_ascii());
        }
        CommandRequest { wire: str_bytes("emergency"), await_ack: true }
    }

    /// Moves up by the given distance in centimeters.
    pub fn up(&self, distance_cm: u16) -> (r: CommandRequest)
        ensures
            r.wire@ == ascii_of("up "@) + dec_rep(distance_cm as int),
            r.await_ack == true,
    {
        proof {
            reveal_strlit("up ");
            assert(("up ").is_ascii());
        }
        let mut w = str_bytes("up ");
        push_u64(&mut w, distance_cm as u64);
        CommandRequest { wire: w, await_ack: true }
    }

    /// Moves down by the given distance in centimeters.
    pub fn down(&self, distance_cm: u16) -> (r: CommandRequest)
        ensures
            r.wire@ == ascii_of("down "@) + dec_rep(distance_cm as int),
            r.await_ack == true,
    {
        proof {
            reveal_strlit("down ");
            assert(("down ").is_ascii());
        }
        let mut w = str_bytes("down ");
        push_u64(&mut w, distance_cm as u64);
        CommandRequest { wire: w, await_ack: true }
    }

    /// Moves left by the given distance in centimeters.
    pub fn left(&self, distance_cm: u16) -> (r: CommandRequest)
        ensures
            r.wire@ == ascii_of("left "@) + dec_rep(distance_cm as int),
            r.await_ack == true,
    {
        proof {
            reveal_strlit("left ");
            assert(("left ").is_ascii());
        }
        let mut w = str_bytes("left ");
        push_u64(&mut w, distance_cm as u64);
        CommandRequest { wire: w, await_ack: true }
    }

    /// Moves right by the given distance in centimeters.
    pub fn right(&self, distance_cm: u16) -> (r: CommandRequest)
        ensures
            r.wire@ == ascii_of("right "@) + dec_rep(distance_cm as int),
            r.await_ack == true,
    {
        proof {
            reveal_strlit("right ");
            assert(("right ").is_ascii());
        }
        let mut w = str_bytes("right ");
        push_u64(&mut w, distance_cm as u64);
        CommandRequest { wire: w, await_ack: true }
    }

    /// Moves forward by the given distance in centimeters.
    pub fn forward(&self, distance_cm: u16) -> (r: CommandRequest)
        ensures
            r.wire@ == ascii_of("forward "@) + dec_rep(distance_cm as int),
            r.await_ack == true,
    {
        proof {
            reveal_strlit("forward ");
            assert(("forward ").is_ascii());
        }
        let mut w = str_bytes("forward ");
        push_u64(&mut w, distance_cm as u64);
        CommandRequest { wire: w, await_ack: true }
    }

    /// Moves back by the given distance in centimeters.
    pub fn back(&self, distance_cm: u16) -> (r: CommandRequest)
        ensures
            r.wire@ == ascii_of("back "@) + dec_rep(distance_cm as int),
            r.await_ack == true,
    {
        proof {
            reveal_strlit("back ");
            assert(("back ").is_ascii());
        }
        let mut w = str_bytes("back ");
        push_u64(&mut w, distance_cm as u64);
        CommandRequest { wire: w, await_ack: true }
    }

    /// Rotates clockwise by the given amount in millidegrees.
    pub fn cw(&self, angle_millidegs: u16) -> (r: CommandRequest)
        ensures
            r.wire@ == ascii_of("cw "@) + dec_rep(angle_millidegs as int),
            r.await_ack == true,
    {
        proof {
            reveal_strlit("cw ");
            assert(("cw ").is_ascii());
        }
        let mut w = str_bytes("cw ");
        push_u64(&mut w, angle_millidegs as u64);
        CommandRequest { wire: w, await_ack: true }
    }

    /// Rotates counter-clockwise by the given amount in millidegrees.
    pub fn ccw(&self, angle_millidegs: u16) -> (r: CommandRequest)
        ensures
            r.wire@ == ascii_of("ccw "@) + dec_rep(angle_millidegs as int),
            r.await_ack == true,
    {
        proof {
            reveal_strlit("ccw ");
            assert(("ccw ").is_ascii());
        }
        let mut w = str_bytes("ccw ");
        push_u64(&mut w, angle_millidegs as u64);
        CommandRequest { wire: w, await_ack: true }
    }

    /// Performs a flip in the given direction.
    pub fn flip(&self, flip: Flip) -> (r: CommandRequest)
        ensures
            r.wire@ == ascii_of("flip "@).push(flip_char(flip) as u8),
            r.await_ack == true,
    {
        proof {
            reveal_strlit("flip ");
            assert(("flip ").is_ascii());
        }
        let mut w = str_bytes("flip ");
        let c = flip.value();
        w.push(c as u8);
        CommandRequest { wire: w, await_ack: true }
    }

    /// Flies to the given position relative to the drone, with a speed.
    pub fn go(&self, x_cm: u16, y_cm: u16, z_cm: u16, speed: u8) -> (r: CommandRequest)
        ensures
            r.wire@ == ascii_of("go "@) + dec_rep(x_cm as int) + space() + dec_rep(y_cm as int)
                + space() + dec_rep(z_cm as int) + space() + dec_rep(speed as int),
            r.await_ack == true,
    {
        proof {
            reveal_strlit("go ");
            assert(("go ").is_ascii());
        }
        let mut w = str_bytes("go ");
        push_u64(&mut w, x_cm as u64);
        push_sep_u64(&mut w, y_cm as u64);
        push_sep_u64(&mut w, z_cm as u64);
        push_sep_u64(&mut w, speed as u64);
        CommandRequest { wire: w, await_ack: true }
    }

    /// Curves from the first point to the second, with a speed.
    pub fn curve(
        &self,
        x1_cm: u16,
        y1_cm: u16,
        z1_cm: u16,
        x2_cm: u16,
        y2_cm: u16,
        z2_cm: u16,
        speed: u8,
    ) -> (r: CommandRequest)
        ensures
            r.wire@ == ascii_of("curve "@) + dec_rep(x1_cm as int) + space() + dec_rep(
                y1_cm as int,
            ) + space() + dec_rep(z1_cm as int) + space() + dec_rep(x2_cm as int) + space()
                + dec_rep(y2_cm as int) + space() + dec_rep(z2_cm as int) + space() + dec_rep(
                speed as int,
            ),
            r.await_ack == true,
    {
        proof {
            reveal_strlit("curve ");
            assert(("curve ").is_ascii());
        }
        let mut w = str_bytes("curve ");
        push_u64(&mut w, x1_cm as u64);
        push_sep_u64(&mut w, y1_cm as u64);
        push_sep_u64(&mut w, z1_cm as u64);
        push_sep_u64(&mut w, x2_cm as u64);
        push_sep_u64(&mut w, y2_cm as u64);
        push_sep_u64(&mut w, z2_cm as u64);
        push_sep_u64(&mut w, speed as u64);
        CommandRequest { wire: w, await_ack: true }
    }

    /// Simulated remote-control sticks; streamed, so no ack is awaited.
    pub fn rc(&self, left_right: i8, forward_backward: i8, up_down: i8, yaw: i8) -> (r:
        CommandRequest)
        ensures
            r.wire@ == ascii_of("rc "@) + dec_int_rep(left_right as int) + space() + dec_int_rep(
                forward_backward as int,
            ) + space() + dec_int_rep(up_down as int) + space() + dec_int_rep(yaw as int),
            r.await_ack == false,
    {
        proof {
            reveal_strlit("rc ");
            assert(("rc ").is_ascii());
        }
        let mut w = str_bytes("rc ");
        let mut d = fmt_i8(left_right);
        w.append(&mut d);
        push_sep_i8(&mut w, forward_backward);
        push_sep_i8(&mut w, up_down);
        push_sep_i8(&mut w, yaw);
        CommandRequest { wire: w, await_ack: false }
    }

    /// Sets the speed used by many other commands, in cm/s.
    pub fn speed(&self, speed_cms: u8) -> (r: CommandRequest)
        ensures
            r.wire@ == ascii_of("speed "@) + dec_rep(speed_cms as int),
            r.await_ack == true,
    {
        proof {
            reveal_strlit("speed ");
            assert(("speed ").is_ascii());
        }
        let mut w = str_bytes("speed ");
        push_u64(&mut w, speed_cms as u64);
        CommandRequest { wire: w, await_ack: true }
    }

    /// Sets the extension LED color.  Every extension command fails fast
    /// with a capability error, and sends nothing, while the capability
    /// flag is unset.
    pub fn ext_led_color(&self, r: u8, g: u8, b: u8) -> (res: Result<CommandRequest, TelloError>)
        ensures
            self.has_robo ==> (res matches Ok(q) && q.wire@ == ascii_of("EXT led "@) + dec_rep(
                r as int,
            ) + space() + dec_rep(g as int) + space() + dec_rep(b as int) && q.await_ack == false),
            !self.has_robo ==> res matches Err(TelloError::CapabilityUnavailable),
    {
        if !self.has_robo {
            return Err(TelloError::CapabilityUnavailable);
        }
        proof {
            reveal_strlit("EXT led ");
            assert(("EXT led ").is_ascii());
        }
        let mut w = str_bytes("EXT led ");
        push_u64(&mut w, r as u64);
        push_sep_u64(&mut w, g as u64);
        push_sep_u64(&mut w, b as u64);
        Ok(CommandRequest { wire: w, await_ack: false })
    }

    /// Pulses the extension LED.  The pulse rate is handed over as number
    /// text, already rendered by the caller.
    pub fn ext_led_pulse(&self, r: u8, g: u8, b: u8, rate_text: &[u8]) -> (res: Result<
        CommandRequest,
        TelloError,
    >)
        ensures
            self.has_robo ==> (res matches Ok(q) && q.wire@ == ascii_of("EXT led br "@) + rate_text@
                + space() + dec_rep(r as int) + space() + dec_rep(g as int) + space() + dec_rep(
                b as int,
            ) && q.await_ack == false),
            !self.has_robo ==> res matches Err(TelloError::CapabilityUnavailable),
    {
        if !self.has_robo {
            return Err(TelloError::CapabilityUnavailable);
        }
        proof {
            reveal_strlit("EXT led br ");
            assert(("EXT led br ").is_ascii());
        }
        let mut w = str_bytes("EXT led br ");
        push_slice(&mut w, rate_text);
        push_sep_u64(&mut w, r as u64);
        push_sep_u64(&mut w, g as u64);
        push_sep_u64(&mut w, b as u64);
        Ok(CommandRequest { wire: w, await_ack: false })
    }

    /// Blinks the extension LED between two colors.  The second color's
    /// channels go on the wire in red, blue, green order.
    pub fn ext_led_blink(
        &self,
        r1: u8,
        g1: u8,
        b1: u8,
        r2: u8,
        g2: u8,
        b2: u8,
        rate_text: &[u8],
    ) -> (res: Result<CommandRequest, TelloError>)
        ensures
            self.has_robo ==> (res matches Ok(q) && q.wire@ == ascii_of("EXT led bl "@) + rate_text@
                + space() + dec_rep(r1 as int) + space() + dec_rep(g1 as int) + space() + dec_rep(
                b1 as int,
            ) + space() + dec_rep(r2 as int) + space() + dec_rep(b2 as int) + space() + dec_rep(
                g2 as int,
            ) && q.await_ack == false),
            !self.has_robo ==> res matches Err(TelloError::CapabilityUnavailable),
    {
        if !self.has_robo {
            return Err(TelloError::CapabilityUnavailable);
        }
        proof {
            reveal_strlit("EXT led bl ");
            assert(("EXT led bl ").is_ascii());
        }
        let mut w = str_bytes("EXT led bl ");
        push_slice(&mut w, rate_text);
        push_sep_u64(&mut w, r1 as u64);
        push_sep_u64(&mut w, g1 as u64);
        push_sep_u64(&mut w, b1 as u64);
        push_sep_u64(&mut w, r2 as u64);
        push_sep_u64(&mut w, b2 as u64);
        push_sep_u64(&mut w, g2 as u64);
        Ok(CommandRequest { wire: w, await_ack: false })
    }

    /// Scrolls one character across the extension LED matrix.
    pub fn ext_matrix_scroll(&self, dir: char, color: char, string: char, rate_text: &[u8]) -> (res:
        Result<CommandRequest, TelloError>)
        ensures
            self.has_robo ==> (res matches Ok(q) && q.wire@ == ascii_of("EXT mled "@) + char_utf8(
                dir,
            ) + space() + char_utf8(color) + space() + rate_text@ + space() + char_utf8(string)
                && q.await_ack == false),
            !self.has_robo ==> res matches Err(TelloError::CapabilityUnavailable),
    {
        if !self.has_robo {
            return Err(TelloError::CapabilityUnavailable);
        }
        proof {
            reveal_strlit("EXT mled ");
            assert(("EXT mled ").is_ascii());
        }
        let mut w = str_bytes("EXT mled ");
        push_char(&mut w, dir);
        w.push(32);
        push_char(&mut w, color);
        w.push(32);
        push_slice(&mut w, rate_text);
        w.push(32);
        push_char(&mut w, string);
        assert(w@ =~= ascii_of("EXT mled "@) + char_utf8(dir) + space() + char_utf8(color)
            + space() + rate_text@ + space() + char_utf8(string));
        Ok(CommandRequest { wire: w, await_ack: false })
    }

    /// Displays a color pattern on the extension LED matrix.
    pub fn ext_matrix_display(&self, colors: &[u8]) -> (res: Result<CommandRequest, TelloError>)
        ensures
            self.has_robo ==> (res matches Ok(q) && q.wire@ == ascii_of("EXT mled g "@) + colors@
                && q.await_ack == false),
            !self.has_robo ==> res matches Err(TelloError::CapabilityUnavailable),
    {
        if !self.has_robo {
            return Err(TelloError::CapabilityUnavailable);
        }
        proof {
            reveal_strlit("EXT mled g ");
            assert(("EXT mled g ").is_ascii());
        }
        let mut w = str_bytes("EXT mled g ");
        push_slice(&mut w, colors);
        Ok(CommandRequest { wire: w, await_ack: false })
    }

    /// Shows scrolling text on the extension LED matrix.  The rate is
    /// handed over as number text, already rendered by the caller.
    pub fn ext_matrix_char(&self, color: char, string: &[u8], rate_text: &[u8]) -> (res: Result<
        CommandRequest,
        TelloError,
    >)
        ensures
            self.has_robo ==> (res matches Ok(q) && q.wire@ == ascii_of("EXT mled s "@)
                + char_utf8(color) + space() + rate_text@ + space() + string@ && q.await_ack
                == false),
            !self.has_robo ==> res matches Err(TelloError::CapabilityUnavailable),
    {
        if !self.has_robo {
            return Err(TelloError::CapabilityUnavailable);
        }
        proof {
            reveal_strlit("EXT mled s ");
            assert(("EXT mled s ").is_ascii());
        }
        let mut w = str_bytes("EXT mled s ");
        push_char(&mut w, color);
        w.push(32);
        push_slice(&mut w, rate_text);
        w.push(32);
        push_slice(&mut w, string);
        assert(w@ =~= ascii_of("EXT mled s "@) + char_utf8(color) + space() + rate_text@ + space()
            + string@);
        Ok(CommandRequest { wire: w, await_ack: false })
    }

    /// Sets the extension LED matrix brightness.
    pub fn ext_matrix_brightness(&self, brightness: u8) -> (res: Result<
        CommandRequest,
        TelloError,
    >)
        ensures
            self.has_robo ==> (res matches Ok(q) && q.wire@ == ascii_of("EXT mled sl "@) + dec_rep(
                brightness as int,
            ) && q.await_ack == false),
            !self.has_robo ==> res matches Err(TelloError::CapabilityUnavailable),
    {
        if !self.has_robo {
            return Err(TelloError::CapabilityUnavailable);
        }
        proof {
            reveal_strlit("EXT mled sl ");
            assert(("EXT mled sl ").is_ascii());
        }
        let mut w = str_bytes("EXT mled sl ");
        push_u64(&mut w, brightness as u64);
        Ok(CommandRequest { wire: w, await_ack: false })
    }

    /// A one-line description of the client, for hosts that render one.
    pub fn repr(&self, state: &State) -> (r: Vec<u8>)
        ensures
            self.running ==> r@ == ascii_of("<Tello "@) + dec_rep(state@.battery_percentage)
                + ascii_of("%, timeout: "@) + dec_rep(self.max_ack_ms as int) + ascii_of(">"@),
            !self.running ==> r@ == ascii_of("<Tello not connected>"@),
    {
        if self.get_running() {
            proof {
                reveal_strlit("<Tello ");
                reveal_strlit("%, timeout: ");
                reveal_strlit(">");
                assert(("<Tello ").is_ascii());
                assert(("%, timeout: ").is_ascii());
                assert((">").is_ascii());
            }
            let mut w = str_bytes("<Tello ");
            push_u64(&mut w, state.get_battery() as u64);
            push_lit(&mut w, "%, timeout: ");
            push_u64(&mut w, self.max_ack_ms);
            push_lit(&mut w, ">");
            w
        } else {
            proof {
                reveal_strlit("<Tello not connected>");
                assert(("<Tello not connected>").is_ascii());
            }
            str_bytes("<Tello not connected>")
        }
    }
}

} // verus!
