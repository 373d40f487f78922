//! The display-mode selector handed to a renderer adapter.
//!
//! `Style` is data only: it picks which fixed template a renderer uses and
//! carries no state of its own. The core's logic never reads it.

use vstd::prelude::*;

verus! {

/// How a renderer displays progress: by byte counts, or by position and
/// length.
#[derive(Debug, Clone, Copy, PartialEq, Eq, Structural)]
pub enum Style {
    /// Display the progress based on a number of bytes.
    Bytes,
    /// Display the progress based on position and length parameters.
    Len,
}

/// The template text each style selects.
pub open spec fn template_spec(s: Style) -> Seq<char> {
    match s {
        Style::Bytes => "{bytes}/{total_bytes}"@,
        Style::Len => "{pos}/{len}"@,
    }
}

impl Style {
    /// The renderer template this style selects.
    pub fn template_str(&self) -> (r: &str)
        ensures
            r@ == template_spec(*self),
    {
        match self {
            Style::Bytes => "{bytes}/{total_bytes}",
            Style::Len => "{pos}/{len}",
        }
    }
}

impl Default for Style {
    /// The default display mode is position-and-length.
    fn default() -> (r: Self)
        ensures
            r is Len,
    {
        Style::Len
    }
}

} // verus!
