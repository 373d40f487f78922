//! Progress reporting for long-running operations, decoupled from rendering.
//!
//! The core is a clamped position accumulator ([`tracker::ProgressPos`])
//! paired with caller-supplied sinks for messages and position updates
//! ([`progress::Progress`]). A renderer consumes what the sinks receive;
//! the core never holds a renderer itself.

pub mod progress;
pub mod sink;
pub mod style;
pub mod tracker;
