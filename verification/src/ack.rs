//! The acknowledgment signal and its classification rules.
//!
//! The command socket carries acknowledgments and unrelated asynchronous
//! traffic.  A frame qualifies as an acknowledgment only when its trimmed
//! text contains "ok" or "error"; a qualifying text is captured in an
//! edge-triggered signal that the issuing caller consumes exactly once.

use vstd::prelude::*;
use crate::text::ascii_of;
use crate::text::contains_bytes;
use crate::text::contains_seq;
use crate::text::is_valid_utf8;
use crate::text::str_bytes;
use crate::text::trim;
use crate::text::trim_seq;
use crate::text::valid_utf8;
use crate::TelloError;

verus! {

pub open spec fn ok_text() -> Seq<u8> {
    ascii_of("ok"@)
}

pub open spec fn error_text() -> Seq<u8> {
    ascii_of("error"@)
}

pub open spec fn unactive_text() -> Seq<u8> {
    ascii_of("unactive"@)
}

/// Whether a trimmed command-channel text qualifies as an acknowledgment.
pub open spec fn qualifies(t: Seq<u8>) -> bool {
    contains_seq(t, ok_text()) || contains_seq(t, error_text())
}

/// Whether a consumed response text is a rejection by the drone.
pub open spec fn rejected(t: Seq<u8>) -> bool {
    contains_seq(t, error_text()) || contains_seq(t, unactive_text())
}

/// The edge-triggered acknowledgment signal: a pending flag plus the last
/// captured response text.  The listener sets it; the issuing caller clears
/// it and takes the text, at most once per capture.
pub struct AckSignal {
    pub pending: bool,
    pub text: Vec<u8>,
}

/// The outcome of one iteration of the ack wait loop.
#[derive(Debug, PartialEq, Eq)]
pub enum PollOutcome {
    /// No acknowledgment yet and time remains: keep polling.
    Pending,
    /// The wait is over: an acknowledgment was consumed and classified, or
    /// the window elapsed and the timeout error is surfaced.
    Completed(Result<Vec<u8>, TelloError>),
}

impl AckSignal {
    pub fn new() -> (r: AckSignal)
        ensures
            !r.pending,
            r.text@ == Seq::<u8>::empty(),
    {
        AckSignal { pending: false, text: Vec::new() }
    }

    /// One step of the ack listener: a datagram that decodes as UTF-8 text
    /// is trimmed, and a qualifying text is captured and the flag raised,
    /// overwriting any unconsumed capture; an undecodable datagram and any
    /// non-qualifying frame leave the signal unchanged.
    pub fn observe(&mut self, raw: &[u8])
        ensures
            valid_utf8(raw@) && qualifies(trim_seq(raw@)) ==> final(self).pending
                && final(self).text@ == trim_seq(raw@),
            !(valid_utf8(raw@) && qualifies(trim_seq(raw@))) ==> *final(self) == *old(self),
    {
        if !is_valid_utf8(raw) {
            return ;
        }
        proof {
            reveal_strlit("ok");
            reveal_strlit("error");
            assert(("ok").is_ascii());
            assert(("error").is_ascii());
        }
        let t = trim(raw);
        let w_ok = str_bytes("ok");
        let w_error = str_bytes("error");
        if contains_bytes(t, w_ok.as_slice()) || contains_bytes(t, w_error.as_slice()) {
            self.text = vstd::slice::slice_to_vec(t);
            self.pending = true;
        }
    }

    /// Consumes a pending acknowledgment: clears the flag and hands out the
    /// captured text.  Without a pending acknowledgment nothing changes.
    pub fn try_consume(&mut self) -> (r: Option<Vec<u8>>)
        ensures
            old(self).pending ==> (r matches Some(v) && v@ == old(self).text@
                && !final(self).pending && final(self).text@ == old(self).text@),
            !old(self).pending ==> r is None && *final(self) == *old(self),
    {
        if self.pending {
            self.pending = false;
            Some(vstd::slice::slice_to_vec(self.text.as_slice()))
        } else {
            None
        }
    }
}

/// Classifies a consumed acknowledgment text: a text containing "error" or
/// "unactive" is a rejection by the drone, surfaced verbatim; any other
/// qualifying text is a success carrying the text.
pub fn classify_response(text: Vec<u8>) -> (r: Result<Vec<u8>, TelloError>)
    ensures
        rejected(text@) ==> (r matches Err(e) && e matches TelloError::DroneRejected(v) && v@
            == text@),
        !rejected(text@) ==> (r matches Ok(v) && v@ == text@),
{
    proof {
        reveal_strlit("error");
        reveal_strlit("unactive");
        assert(("error").is_ascii());
        assert(("unactive").is_ascii());
    }
    let w_error = str_bytes("error");
    let w_unactive = str_bytes("unactive");
    if contains_bytes(text.as_slice(), w_error.as_slice()) || contains_bytes(
        text.as_slice(),
        w_unactive.as_slice(),
    ) {
        Err(TelloError::DroneRejected(text))
    } else {
        Ok(text)
    }
}

/// One iteration of the wait loop an ack-awaiting issue call runs: expiry
/// of the window is checked first, as the wait loop does; then a pending
/// acknowledgment is consumed and classified; otherwise the caller keeps
/// polling.  On a timeout the signal is left as it is: a stale reply may
/// still set it later, to be consumed by the next awaiting call.
pub fn poll_ack(sig: &mut AckSignal, elapsed_ms: u64, limit_ms: u64) -> (r: PollOutcome)
    ensures
        elapsed_ms >= limit_ms ==> (r matches PollOutcome::Completed(res) && res matches Err(e)
            && e matches TelloError::AckTimeout) && *final(sig) == *old(sig),
        elapsed_ms < limit_ms && !old(sig).pending ==> r is Pending && *final(sig) == *old(sig),
        elapsed_ms < limit_ms && old(sig).pending ==> !final(sig).pending && final(sig).text@
            == old(sig).text@,
        elapsed_ms < limit_ms && old(sig).pending && rejected(old(sig).text@) ==> (r matches
            PollOutcome::Completed(res) && res matches Err(e) && e matches
            TelloError::DroneRejected(v) && v@ == old(sig).text@),
        elapsed_ms < limit_ms && old(sig).pending && !rejected(old(sig).text@) ==> (r matches
            PollOutcome::Completed(res) && res matches Ok(v) && v@ == old(sig).text@),
{
    if elapsed_ms >= limit_ms {
        PollOutcome::Completed(Err(TelloError::AckTimeout))
    } else {
        match sig.try_consume() {
            Some(text) => PollOutcome::Completed(classify_response(text)),
            None => PollOutcome::Pending,
        }
    }
}

} // verus!
