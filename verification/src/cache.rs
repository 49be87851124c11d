//! Sizing of the decoded-image cache.
use vstd::prelude::*;
use crate::decoder::DecodedImage;

verus! {

/// How many decoded images the full-image cache is sized for.
pub const FULL_CACHE_ESTIMATED_ITEMS: usize = 128;

/// Weighs a decoded image in the full-image cache by its size in bytes.
#[derive(Clone, Copy, Debug)]
pub struct ImageWeighter;

impl ImageWeighter {
    /// The weight of a cached image: the number of bytes of its pixels.
    pub fn weight(&self, image: &DecodedImage) -> (w: u64)
        ensures
            w == image.bytes_size,
    {
        image.bytes_size as u64
    }
}

/// The byte budget of the full-image cache for a limit in megabytes.
pub fn full_cache_budget(max_ram_mb: usize) -> (bytes: u64)
    requires
        max_ram_mb * 1024 * 1024 <= usize::MAX,
    ensures
        bytes == max_ram_mb * 1024 * 1024,
{
    (max_ram_mb * 1024 * 1024) as u64
}

} // verus!
