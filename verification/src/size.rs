//! The size of a terminal.
use vstd::prelude::*;

verus! {

/// The size of a terminal window: columns wide and lines tall.
#[derive(Clone, Copy, Debug, PartialEq, Eq, Structural)]
pub struct Size {
    /// Number of columns.
    pub width: u16,
    /// Number of lines.
    pub height: u16,
}

} // verus!
