//! What a frame of the thumbnail strip reports back.
use vstd::prelude::*;

verus! {

/// The strip's answer for one frame.
#[derive(Clone, Copy, Debug, PartialEq, Eq, Structural)]
pub struct FilmstripResponse {
    /// The position of the thumbnail clicked, if any.
    pub selected_index: Option<usize>,
}

} // verus!
