//! The progress handle: the sole touchpoint between operation logic and a
//! renderer.
//!
//! A handle owns one clamped position tracker, a target length, and the two
//! sinks supplied at construction. Each increment updates the tracker first
//! and only then reports the new total to the position sink
//! (update-then-notify), so a failing sink never loses an update.

use std::io::Write;

use vstd::prelude::*;

use crate::sink::{MsgSink, PosSink};
use crate::tracker::{clamped_add, ProgressPos};

verus! {

/// The increment an `inc` call applies: the explicit delta when one is
/// given, the whole configured length otherwise.
pub open spec fn effective_delta(value: Option<u64>, len: u64) -> int {
    match value {
        Some(v) => v as int,
        None => len as int,
    }
}

/// Incrementing by the whole length and incrementing by an explicit delta
/// equal to that length advance the position identically.
pub proof fn lemma_inc_none_is_inc_len(pos: int, len: u64)
    ensures
        clamped_add(pos, effective_delta(None, len)) == clamped_add(
            pos,
            effective_delta(Some(len), len),
        ),
{
}

/// A progress handle for one long-running operation.
pub struct Progress<M: MsgSink, P: PosSink> {
    pos: ProgressPos,
    /// The caller-declared size of one unit of work: the default increment
    /// when `inc` is given no explicit delta.
    pub len: u64,
    msg_sink: M,
    pos_sink: P,
}

impl<M: MsgSink, P: PosSink> Progress<M, P> {
    /// The current total position of the underlying tracker.
    pub closed spec fn position(&self) -> int {
        self.pos@
    }

    /// The configured length, as contracts speak of it.
    pub closed spec fn length(&self) -> u64 {
        self.len
    }

    /// Build a handle at position zero with `len` zero, owning the two
    /// sinks, which must stay valid for the handle's whole lifetime.
    pub fn new(msg_sink: M, pos_sink: P) -> (r: Self)
        ensures
            r.position() == 0,
            r.length() == 0,
    {
        Progress { pos: ProgressPos::new(0), len: 0, msg_sink, pos_sink }
    }

    /// Consuming builder: the same handle with `len` set; the position is
    /// not reset.
    pub fn with_len(self, len: u64) -> (r: Self)
        ensures
            r.length() == len,
            r.position() == self.position(),
    {
        let mut r = self;
        r.len = len;
        r
    }

    /// Forward a message to the message sink and surface its verdict
    /// verbatim; the position and length are untouched.
    pub fn show_msg(&self, msg: String) -> Result<(), anyhow::Error> {
        self.msg_sink.send_msg(msg)
    }

    /// Advance the position by an explicit `delta`, clamped at `POS_LIMIT`,
    /// then report the new total to the position sink and surface its
    /// verdict. The tracker is updated before the sink runs, whatever the
    /// sink then returns.
    pub fn inc_by(&mut self, delta: u64) -> (r: Result<(), anyhow::Error>)
        ensures
            final(self).position() == clamped_add(old(self).position(), delta as int),
            final(self).length() == old(self).length(),
    {
        self.pos.add(delta);
        let total = self.pos.load();
        self.pos_sink.send_pos(total)
    }

    /// Mark one whole unit of work complete: advance by the configured
    /// `len`, clamped, and report the new total to the position sink.
    pub fn inc_len(&mut self) -> (r: Result<(), anyhow::Error>)
        ensures
            final(self).position() == clamped_add(old(self).position(), old(self).length() as int),
            final(self).length() == old(self).length(),
    {
        let delta = self.len;
        self.inc_by(delta)
    }

    /// Advance by the given delta, or by the whole `len` when none is
    /// given, then report the new total to the position sink.
    pub fn inc(&mut self, value: Option<u64>) -> (r: Result<(), anyhow::Error>)
        ensures
            final(self).position() == clamped_add(
                old(self).position(),
                effective_delta(value, old(self).length()),
            ),
            final(self).length() == old(self).length(),
    {
        match value {
            Some(delta) => self.inc_by(delta),
            None => self.inc_len(),
        }
    }
}

/// Relies on std::io::Stdout: writes the line to standard output.
#[verifier::external_body]
fn print_line(msg: &str) {
    let mut out = std::io::stdout();
    let _ = writeln!(out, "{}", msg);
}

/// Print the message on standard output unconditionally, and forward it
/// once through `show_msg` when a progress handle is supplied, surfacing
/// the message sink's verdict.
pub fn send_and_print<M: MsgSink, P: PosSink>(
    msg: String,
    progress: Option<&Progress<M, P>>,
) -> (r: Result<(), anyhow::Error>)
    ensures
        progress is None ==> r is Ok,
{
    print_line(msg.as_str());
    match progress {
        Some(prog) => prog.show_msg(msg),
        None => Ok(()),
    }
}

} // verus!
