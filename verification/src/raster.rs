//! The pixel walk of a render pass and the byte layout of the frame.
//!
//! The camera shoots one primary ray per pixel, walking the screen grid
//! row-major — rows top to bottom, columns left to right, both centred on
//! zero — and the traced color of the k-th ray is written to the k-th
//! 4-byte RGBA slot of the frame. This module fixes both sides of that
//! lockstep: the enumeration order of the grid and the byte writes.

use vstd::prelude::*;

verus! {

/// Number of grid columns walked for a screen `width` pixels wide: the walk
/// covers `-width/2 .. width/2`, so an odd trailing column is dropped.
pub open spec fn grid_cols(width: int) -> int {
    2 * (width / 2)
}

/// Number of grid rows walked for a screen `height` pixels tall.
pub open spec fn grid_rows(height: int) -> int {
    2 * (height / 2)
}

/// The screen-grid coordinate of the `k`-th ray of a walk with `cols`
/// columns: row-major, each axis centred on zero.
pub open spec fn grid_coord(k: int, cols: int, rows: int) -> (int, int) {
    (k % cols - cols / 2, k / cols - rows / 2)
}

/// Enumerate the screen grid of a `width` by `height` frame in the order the
/// camera shoots rays: the y offset runs from `-height/2` up to
/// `height/2 - 1` in the outer walk, the x offset from `-width/2` up to
/// `width/2 - 1` in the inner one.
pub fn pixel_grid(width: i32, height: i32) -> (grid: Vec<(i32, i32)>)
    requires
        0 <= width,
        0 <= height,
        width * height <= i32::MAX,
    ensures
        grid@.len() == grid_cols(width as int) * grid_rows(height as int),
        forall|k: int|
            0 <= k < grid@.len() ==> {
                &&& (#[trigger] grid@[k]).0 == grid_coord(k, grid_cols(width as int), grid_rows(height as int)).0
                &&& grid@[k].1 == grid_coord(k, grid_cols(width as int), grid_rows(height as int)).1
            },
{
    let wh: i32 = width / 2;
    let hh: i32 = height / 2;
    let cols: i32 = 2 * wh;
    let rows: i32 = 2 * hh;
    proof {
        assert(0 <= (cols as int) * (rows as int) <= (width as int) * (height as int))
            by (nonlinear_arith)
            requires
                0 <= cols <= width,
                0 <= rows <= height,
        ;
    }
    let total: i32 = cols * rows;
    let mut grid: Vec<(i32, i32)> = Vec::new();
    let mut k: i32 = 0;
    while k < total
        invariant
            0 <= k <= total,
            0 <= wh,
            0 <= hh,
            cols == 2 * wh,
            rows == 2 * hh,
            cols == grid_cols(width as int),
            rows == grid_rows(height as int),
            total == (cols as int) * (rows as int),
            grid@.len() == k,
            forall|i: int|
                0 <= i < k ==> {
                    &&& (#[trigger] grid@[i]).0 == grid_coord(i, cols as int, rows as int).0
                    &&& grid@[i].1 == grid_coord(i, cols as int, rows as int).1
                },
        decreases total - k,
    {
        proof {
            assert(0 < cols && (k as int) / (cols as int) < rows) by (nonlinear_arith)
                requires
                    0 <= k < total,
                    total == (cols as int) * (rows as int),
                    0 <= cols,
                    0 <= rows,
            ;
        }
        let x: i32 = k % cols - wh;
        let y: i32 = k / cols - hh;
        grid.push((x, y));
        k = k + 1;
    }
    grid
}

/// The `k`-th slot of the row-major walk, `k = (y + rows/2) * cols +
/// (x + cols/2)`, decodes back to the grid coordinate `(x, y)`: the walk
/// visits each in-range coordinate exactly once, in that order.
pub proof fn lemma_grid_index(x: int, y: int, wh: int, hh: int)
    requires
        -wh <= x < wh,
        -hh <= y < hh,
    ensures
        grid_coord((y + hh) * (2 * wh) + (x + wh), 2 * wh, 2 * hh) == (x, y),
{
    let cols = 2 * wh;
    let k = (y + hh) * cols + (x + wh);
    assert(k % cols == x + wh && k / cols == y + hh) by (nonlinear_arith)
        requires
            0 <= x + wh < cols,
            0 <= y + hh,
            cols == 2 * wh,
            k == (y + hh) * cols + (x + wh),
    ;
    assert(cols / 2 == wh);
    assert((2 * hh) / 2 == hh);
}

/// Write the RGBA bytes `[r, g, b, 255]` of the `index`-th pixel into the
/// frame; every byte outside that 4-byte slot is untouched.
pub fn write_rgba(frame: &mut Vec<u8>, index: usize, r: u8, g: u8, b: u8)
    requires
        4 * index + 4 <= old(frame)@.len(),
    ensures
        final(frame)@.len() == old(frame)@.len(),
        final(frame)@[4 * index] == r,
        final(frame)@[4 * index + 1] == g,
        final(frame)@[4 * index + 2] == b,
        final(frame)@[4 * index + 3] == 255,
        forall|j: int|
            0 <= j < old(frame)@.len() && !(4 * index <= j < 4 * index + 4)
                ==> final(frame)@[j] == old(frame)@[j],
{
    let len: usize = frame.len();
    proof {
        assert(4 * index + 4 <= len);
    }
    let base: usize = 4 * index;
    frame.set(base, r);
    frame.set(base + 1, g);
    frame.set(base + 2, b);
    frame.set(base + 3, 255);
}

/// Fill the whole frame from the traced colors, in lockstep: the `k`-th RGB
/// triple lands in the `k`-th 4-byte slot with an opaque alpha byte.
pub fn fill_frame(frame: &mut Vec<u8>, colors: &Vec<(u8, u8, u8)>)
    requires
        old(frame)@.len() == 4 * colors@.len(),
    ensures
        final(frame)@.len() == old(frame)@.len(),
        forall|k: int|
            0 <= k < colors@.len() ==> {
                &&& final(frame)@[4 * k] == colors@[k].0
                &&& final(frame)@[4 * k + 1] == colors@[k].1
                &&& final(frame)@[4 * k + 2] == colors@[k].2
                &&& final(frame)@[4 * k + 3] == 255
            },
{
    let mut k: usize = 0;
    while k < colors.len()
        invariant
            frame@.len() == 4 * colors@.len(),
            k <= colors@.len(),
            forall|i: int|
                0 <= i < k ==> {
                    &&& frame@[4 * i] == colors@[i].0
                    &&& frame@[4 * i + 1] == colors@[i].1
                    &&& frame@[4 * i + 2] == colors@[i].2
                    &&& frame@[4 * i + 3] == 255
                },
        decreases colors@.len() - k,
    {
        let c = colors[k];
        write_rgba(frame, k, c.0, c.1, c.2);
        k = k + 1;
    }
}

} // verus!
