//! The callback boundary: caller-supplied sinks for messages and positions.
//!
//! A sink is owned by the progress handle and invoked synchronously on every
//! report; whatever failure it returns is surfaced verbatim, with no
//! wrapping, retrying or suppression by the core.

use vstd::prelude::*;

verus! {

/// `anyhow::Error` is the failure type a sink reports; the core carries it
/// through untouched and never constructs or inspects one.
#[verifier::external_type_specification]
#[verifier::external_body]
pub struct ExAnyhowError(anyhow::Error);

/// A message sink: receives each textual status report.
pub trait MsgSink {
    /// Consume one message; any failure is the sink's to define.
    fn send_msg(&self, msg: String) -> Result<(), anyhow::Error>;
}

/// A position sink: receives the total position after each increment.
pub trait PosSink {
    /// Consume one position report, in `[0, POS_LIMIT]` sub-units; any
    /// failure is the sink's to define.
    fn send_pos(&self, pos: u64) -> Result<(), anyhow::Error>;
}

} // verus!
