//! The discrete part of a view: the iteration cap and the active palette.
//!
//! The continuous part of a view, centre and step size, belongs to the
//! caller, who also computes the escape-time classifications that the
//! rendering functions here take as input.

use vstd::prelude::*;
use crate::color_bucket::ColorBucket;
use crate::colorizer::{colorized, flattened, paint_grid, paint_grid_bytes};

verus! {

/// The iteration cap that a request for `value` yields: never below 1.
pub open spec fn clamped_depth(value: u32) -> u32 {
    if value == 0 {
        1
    } else {
        value
    }
}

/// Iteration cap and palette of a view.
pub struct Mandelbrot {
    depth: u32,
    color_buckets: Vec<ColorBucket>,
}

impl Mandelbrot {
    /// The iteration cap.
    pub closed spec fn depth(&self) -> u32 {
        self.depth
    }

    /// The active palette, in order.
    pub closed spec fn palette(&self) -> Seq<ColorBucket> {
        self.color_buckets@
    }

    /// The cap is at least 1 and the palette holds at least one colour.
    pub open spec fn well_formed(&self) -> bool {
        &&& self.depth() >= 1
        &&& self.palette().len() >= 1
    }

    /// Builds a view state from an iteration cap and a palette. An empty
    /// palette is refused; a cap of 0 is raised to 1.
    pub fn new(depth: u32, color_buckets: Vec<ColorBucket>) -> (state: Option<Mandelbrot>)
        ensures
            state is None <==> color_buckets@.len() == 0,
            state matches Some(m) ==> {
                &&& m.well_formed()
                &&& m.depth() == clamped_depth(depth)
                &&& m.palette() == color_buckets@
            },
    {
        if color_buckets.len() == 0 {
            None
        } else {
            let depth: u32 = if depth == 0 {
                1
            } else {
                depth
            };
            Some(Mandelbrot { depth, color_buckets })
        }
    }

    /// Sets the iteration cap; a request for 0 sets it to 1.
    pub fn set_depth(&mut self, value: u32)
        requires
            old(self).well_formed(),
        ensures
            final(self).well_formed(),
            final(self).depth() == clamped_depth(value),
            final(self).palette() == old(self).palette(),
    {
        self.depth = if value == 0 {
            1
        } else {
            value
        };
    }

    /// Raises the iteration cap by `value`.
    pub fn mod_depth(&mut self, value: u32)
        requires
            old(self).well_formed(),
            old(self).depth() + value <= u32::MAX,
        ensures
            final(self).well_formed(),
            final(self).depth() == old(self).depth() + value,
            final(self).palette() == old(self).palette(),
    {
        let depth = self.get_depth();
        self.set_depth(depth + value);
    }

    /// Raises the iteration cap by `value` where the sum fits, and says
    /// whether it did; the state is unchanged where it does not fit.
    pub fn try_mod_depth(&mut self, value: u32) -> (done: bool)
        requires
            old(self).well_formed(),
        ensures
            final(self).well_formed(),
            done <==> old(self).depth() + value <= u32::MAX,
            done ==> final(self).depth() == old(self).depth() + value,
            !done ==> final(self).depth() == old(self).depth(),
            final(self).palette() == old(self).palette(),
    {
        if value <= u32::MAX - self.depth {
            self.mod_depth(value);
            true
        } else {
            false
        }
    }

    /// Returns the iteration cap.
    pub fn get_depth(&self) -> (depth: u32)
        ensures
            depth == self.depth(),
    {
        self.depth
    }

    /// Returns the number of colours in the palette.
    pub fn palette_len(&self) -> (len: usize)
        ensures
            len == self.palette().len(),
    {
        self.color_buckets.len()
    }

    /// Returns the colour at `index`, if the palette is that long.
    pub fn get_bucket(&self, index: usize) -> (bucket: Option<ColorBucket>)
        ensures
            bucket == if index < self.palette().len() {
                Some(self.palette()[index as int])
            } else {
                None
            },
    {
        if index < self.color_buckets.len() {
            Some(self.color_buckets[index])
        } else {
            None
        }
    }

    /// Returns the last colour of the palette, from which the palette grows.
    pub fn last_bucket(&self) -> (bucket: ColorBucket)
        requires
            self.well_formed(),
        ensures
            bucket == self.palette().last(),
    {
        self.color_buckets[self.color_buckets.len() - 1]
    }

    /// Returns how many colours the palette lacks to have one per iteration.
    pub fn missing_buckets(&self) -> (missing: usize)
        ensures
            missing == if self.palette().len() < self.depth() {
                self.depth() - self.palette().len()
            } else {
                0
            },
    {
        let depth: usize = self.depth as usize;
        if self.color_buckets.len() < depth {
            depth - self.color_buckets.len()
        } else {
            0
        }
    }

    /// Appends one colour to the palette.
    pub fn push_bucket(&mut self, bucket: ColorBucket)
        requires
            old(self).well_formed(),
        ensures
            final(self).well_formed(),
            final(self).depth() == old(self).depth(),
            final(self).palette() == old(self).palette().push(bucket),
    {
        self.color_buckets.push(bucket);
    }

    /// Replaces the palette as a whole and says whether it did: an empty
    /// palette is refused and leaves the state as it was.
    pub fn set_palette(&mut self, color_buckets: Vec<ColorBucket>) -> (done: bool)
        requires
            old(self).well_formed(),
        ensures
            final(self).well_formed(),
            final(self).depth() == old(self).depth(),
            done <==> color_buckets@.len() >= 1,
            final(self).palette() == if done {
                color_buckets@
            } else {
                old(self).palette()
            },
    {
        if color_buckets.len() == 0 {
            false
        } else {
            self.color_buckets = color_buckets;
            true
        }
    }

    /// Colours a grid of classifications, one pixel per sample in the order
    /// of the samples.
    pub fn create_pixel_triplets(&self, values: &Vec<Option<u32>>) -> (pixels: Vec<[u8; 3]>)
        requires
            self.well_formed(),
        ensures
            pixels@ == colorized(values@, self.palette(), self.depth()),
    {
        paint_grid(values, &self.color_buckets, self.depth)
    }

    /// Colours a grid of classifications into a flat buffer of bytes: red,
    /// green and blue of the first sample, then of the second, and so on.
    pub fn create_pixels(&self, values: &Vec<Option<u32>>) -> (bytes: Vec<u8>)
        requires
            self.well_formed(),
        ensures
            bytes@ == flattened(colorized(values@, self.palette(), self.depth())),
    {
        paint_grid_bytes(values, &self.color_buckets, self.depth)
    }
}

} // verus!
