//! What a frame of the image canvas reports back.
use vstd::prelude::*;

verus! {

/// The canvas's answer for one frame.
#[derive(Clone, Copy, Debug, PartialEq, Eq, Structural)]
pub struct CanvasResponse {
    /// The canvas was double-clicked.
    pub double_clicked: bool,
}

} // verus!
