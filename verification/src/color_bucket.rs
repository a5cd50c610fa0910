//! A single palette entry.

use vstd::prelude::*;

verus! {

/// An opaque colour: three 8-bit channels in the order red, green, blue.
#[derive(Clone, Copy)]
pub struct ColorBucket {
    color: [u8; 3],
}

impl ColorBucket {
    /// The channels of this colour.
    pub closed spec fn rgb(self) -> [u8; 3] {
        self.color
    }

    /// Builds a colour from its three channels.
    pub fn from_rgb(color: [u8; 3]) -> (bucket: ColorBucket)
        ensures
            bucket.rgb() == color,
    {
        ColorBucket { color }
    }

    /// Returns the channels of this colour.
    pub fn get_color(&self) -> (color: [u8; 3])
        ensures
            color == self.rgb(),
    {
        self.color
    }
}

} // verus!
