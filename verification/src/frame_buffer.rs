//! A fixed-size pixel store addressed by integer coordinates.
//!
//! Pixels are kept row-major: the slot of `(x, y)` is `x + y * width`.

use vstd::prelude::*;

verus! {

/// A `width` by `height` grid of pixel values, stored row-major.
pub struct FrameBuffer {
    width: i32,
    height: i32,
    pixels: Vec<i64>,
}

impl FrameBuffer {
    /// The dimensions are non-negative, every slot index fits in an `i32`,
    /// and the store holds exactly one value per pixel.
    pub closed spec fn well_formed(self) -> bool {
        &&& 0 <= self.width
        &&& 0 <= self.height
        &&& self.width * self.height <= i32::MAX
        &&& self.pixels@.len() == self.width * self.height
    }

    /// Number of pixel columns.
    pub closed spec fn spec_width(self) -> i32 {
        self.width
    }

    /// Number of pixel rows.
    pub closed spec fn spec_height(self) -> i32 {
        self.height
    }

    /// Number of pixel columns.
    pub fn width(&self) -> (w: i32)
        ensures
            w == self.spec_width(),
    {
        self.width
    }

    /// Number of pixel rows.
    pub fn height(&self) -> (h: i32)
        ensures
            h == self.spec_height(),
    {
        self.height
    }

    /// The value stored for the pixel at `(x, y)`.
    pub closed spec fn pixel_at(self, x: int, y: int) -> i64 {
        self.pixels@[x + y * self.width]
    }

    /// Store `color` in the slot of `(x, y)`; every other slot is untouched.
    pub fn set_pixel(&mut self, x: i32, y: i32, color: i64)
        requires
            old(self).well_formed(),
            0 <= x < old(self).spec_width(),
            0 <= y < old(self).spec_height(),
        ensures
            final(self).well_formed(),
            final(self).spec_width() == old(self).spec_width(),
            final(self).spec_height() == old(self).spec_height(),
            final(self).pixel_at(x as int, y as int) == color,
            forall|i: int, j: int|
                0 <= i < old(self).spec_width() && 0 <= j < old(self).spec_height()
                    && !(i == x && j == y)
                    ==> final(self).pixel_at(i, j) == old(self).pixel_at(i, j),
    {
        proof {
            lemma_slot_in_range(x as int, y as int, self.width as int, self.height as int);
        }
        let slot: usize = (x + y * self.width) as usize;
        self.pixels.set(slot, color);
        proof {
            assert forall|i: int, j: int|
                0 <= i < self.width && 0 <= j < self.height && !(i == x && j == y)
                    implies self.pixel_at(i, j) == old(self).pixel_at(i, j) by {
                lemma_slot_in_range(i, j, self.width as int, self.height as int);
                if i + j * self.width == x + y * self.width {
                    lemma_slot_injective(i, j, x as int, y as int, self.width as int);
                }
            }
        }
    }

    /// Read the value stored for the pixel at `(x, y)`.
    pub fn get_pixel(&self, x: i32, y: i32) -> (color: i64)
        requires
            self.well_formed(),
            0 <= x < self.spec_width(),
            0 <= y < self.spec_height(),
        ensures
            color == self.pixel_at(x as int, y as int),
    {
        proof {
            lemma_slot_in_range(x as int, y as int, self.width as int, self.height as int);
        }
        self.pixels[(x + y * self.width) as usize]
    }
}

/// The row-major slot of an in-range coordinate lies inside the store.
proof fn lemma_slot_in_range(x: int, y: int, width: int, height: int) by (nonlinear_arith)
    requires
        0 <= x < width,
        0 <= y < height,
    ensures
        0 <= x + y * width < width * height,
{
}

/// Distinct in-range coordinates occupy distinct row-major slots.
proof fn lemma_slot_injective(i: int, j: int, x: int, y: int, width: int) by (nonlinear_arith)
    requires
        0 <= i < width,
        0 <= x < width,
        i + j * width == x + y * width,
    ensures
        i == x,
        j == y,
{
}

/// Make a buffer of the given dimensions with every pixel cleared to zero.
pub fn create_frame_buffer(width: i32, height: i32) -> (buffer: FrameBuffer)
    requires
        0 <= width,
        0 <= height,
        width * height <= i32::MAX,
    ensures
        buffer.well_formed(),
        buffer.spec_width() == width,
        buffer.spec_height() == height,
        forall|i: int, j: int|
            0 <= i < width && 0 <= j < height ==> buffer.pixel_at(i, j) == 0,
{
    let count: usize = (width * height) as usize;
    let mut pixels: Vec<i64> = Vec::new();
    let mut filled: usize = 0;
    while filled < count
        invariant
            pixels@.len() == filled,
            filled <= count,
            forall|k: int| 0 <= k < filled ==> pixels@[k] == 0i64,
        decreases count - filled,
    {
        pixels.push(0);
        filled = filled + 1;
    }
    let buffer = FrameBuffer { width, height, pixels };
    proof {
        assert forall|i: int, j: int|
            0 <= i < width && 0 <= j < height implies buffer.pixel_at(i, j) == 0 by {
            lemma_slot_in_range(i, j, width as int, height as int);
        }
    }
    buffer
}

} // verus!
