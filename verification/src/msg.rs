//! Window messages as plain values.

use vstd::prelude::*;
use crate::structs::SIZE;

verus! {

/// A generic window message: identifier and its two packed parameters.
#[derive(Clone, Copy, PartialEq, Eq, Structural, Debug)]
pub struct WndMsg {
    pub msg_id: u32,
    pub wparam: usize,
    pub lparam: isize,
}

/// The parameters of a resize message: what kind of resize was requested and
/// the new client area.
#[derive(Clone, Copy, PartialEq, Eq, Structural, Debug)]
pub struct Size {
    /// The resize request code.
    pub request: u32,
    /// The client area after the resize.
    pub client_area: SIZE,
}

} // verus!
