//! Texel storage and bilinear blending for texture sampling.
//!
//! A texture is a `width` by `height` grid of RGB byte triples. Sampling a
//! normalized UV coordinate splits, in the host, into an integer texel
//! coordinate `(x0, y0)` and fractional weights; this module does the exact
//! part: fetching the four surrounding texels, wrapping at the seam with
//! `(x0 + 1) % width` (and likewise for rows), and blending them with
//! fixed-point weights. The weights are numerators over [`WEIGHT_ONE`]; the
//! blend of each channel is returned as an exact numerator over
//! `WEIGHT_ONE * WEIGHT_ONE`, which the host divides back out.

use vstd::prelude::*;

verus! {

/// Fixed-point weight denominator: a fractional weight `f` in `[0, 1]` is
/// passed as a numerator in `[0, WEIGHT_ONE]`.
pub const WEIGHT_ONE: u32 = 65536;

/// A `width` by `height` grid of RGB texels, row-major, three bytes each.
pub struct Texture {
    pixels: Vec<u8>,
    width: u32,
    height: u32,
}

/// Exact bilinear blend of one channel of four texels, as a numerator over
/// `WEIGHT_ONE * WEIGHT_ONE`: the four corners are weighted by the products
/// of `fx` or its complement with `fy` or its complement.
pub open spec fn blend_spec(tl: u8, tr: u8, bl: u8, br: u8, fx: int, fy: int) -> int {
    tl * (WEIGHT_ONE - fx) * (WEIGHT_ONE - fy)
        + tr * fx * (WEIGHT_ONE - fy)
        + bl * (WEIGHT_ONE - fx) * fy
        + br * fx * fy
}

impl Texture {
    /// The grid is non-empty, its texel count fits the address space, and the
    /// store holds exactly three bytes per texel.
    pub closed spec fn well_formed(self) -> bool {
        &&& 1 <= self.width
        &&& 1 <= self.height
        &&& 3 * self.width * self.height <= usize::MAX
        &&& self.pixels@.len() == 3 * self.width * self.height
    }

    /// Number of texel columns.
    pub closed spec fn spec_width(self) -> u32 {
        self.width
    }

    /// Number of texel rows.
    pub closed spec fn spec_height(self) -> u32 {
        self.height
    }

    /// Channel `c` (0 red, 1 green, 2 blue) of the texel at `(x, y)`.
    pub closed spec fn texel_spec(self, x: int, y: int, c: int) -> u8 {
        self.pixels@[3 * (x + y * self.width) + c]
    }

    /// Build a texture from raw row-major RGB bytes. Returns `None` exactly
    /// when the dimensions are empty, overflow the address space, or do not
    /// match the byte count.
    pub fn create(width: u32, height: u32, pixels: Vec<u8>) -> (texture: Option<Texture>)
        ensures
            match texture {
                Some(t) => {
                    &&& t.well_formed()
                    &&& t.spec_width() == width
                    &&& t.spec_height() == height
                    &&& pixels@.len() == 3 * width * height
                    &&& forall|x: int, y: int, c: int|
                        0 <= x < width && 0 <= y < height && 0 <= c < 3
                            ==> t.texel_spec(x, y, c) == pixels@[3 * (x + y * width) + c]
                },
                None => !{
                    &&& 1 <= width
                    &&& 1 <= height
                    &&& 3 * width * height <= usize::MAX
                    &&& pixels@.len() == 3 * width * height
                },
            },
    {
        if width < 1 || height < 1 {
            return None;
        }
        proof {
            assert(0 <= (width as int) * (height as int) <= u64::MAX) by (nonlinear_arith)
                requires
                    width <= u32::MAX,
                    height <= u32::MAX,
            ;
        }
        let texel_count: u64 = (width as u64) * (height as u64);
        proof {
            assert(3 * (width as int) * (height as int) == 3 * ((width as int) * (height as int)))
                by (nonlinear_arith);
        }
        if texel_count > (usize::MAX as u64) / 3 {
            proof {
                assert(3 * (texel_count as int) > usize::MAX);
            }
            return None;
        }
        let byte_count: usize = 3 * (texel_count as usize);
        if pixels.len() != byte_count {
            return None;
        }
        Some(Texture { pixels, width, height })
    }

    /// Number of texel columns.
    pub fn width(&self) -> (w: u32)
        ensures
            w == self.spec_width(),
    {
        self.width
    }

    /// Number of texel rows.
    pub fn height(&self) -> (h: u32)
        ensures
            h == self.spec_height(),
    {
        self.height
    }

    /// Read the RGB triple of the texel at `(x, y)`.
    pub fn texel(&self, x: u32, y: u32) -> (rgb: (u8, u8, u8))
        requires
            self.well_formed(),
            x < self.spec_width(),
            y < self.spec_height(),
        ensures
            rgb.0 == self.texel_spec(x as int, y as int, 0),
            rgb.1 == self.texel_spec(x as int, y as int, 1),
            rgb.2 == self.texel_spec(x as int, y as int, 2),
    {
        proof {
            lemma_texel_slot_in_range(x as int, y as int, self.width as int, self.height as int);
        }
        let slot: usize = 3 * (x as usize + y as usize * self.width as usize);
        (self.pixels[slot], self.pixels[slot + 1], self.pixels[slot + 2])
    }

    /// Blend the four texels around `(x0, y0)` channel-wise with the given
    /// fixed-point weights; the right and bottom neighbours wrap at the seam.
    /// Each channel of the result is an exact numerator over
    /// `WEIGHT_ONE * WEIGHT_ONE`.
    pub fn sample_bilinear(&self, x0: u32, y0: u32, fx: u32, fy: u32) -> (rgb: (u64, u64, u64))
        requires
            self.well_formed(),
            x0 < self.spec_width(),
            y0 < self.spec_height(),
            fx <= WEIGHT_ONE,
            fy <= WEIGHT_ONE,
        ensures
            ({
                let x1 = (x0 + 1) % (self.spec_width() as int);
                let y1 = (y0 + 1) % (self.spec_height() as int);
                &&& rgb.0 == blend_spec(
                    self.texel_spec(x0 as int, y0 as int, 0),
                    self.texel_spec(x1 as int, y0 as int, 0),
                    self.texel_spec(x0 as int, y1 as int, 0),
                    self.texel_spec(x1 as int, y1 as int, 0),
                    fx as int,
                    fy as int,
                )
                &&& rgb.1 == blend_spec(
                    self.texel_spec(x0 as int, y0 as int, 1),
                    self.texel_spec(x1 as int, y0 as int, 1),
                    self.texel_spec(x0 as int, y1 as int, 1),
                    self.texel_spec(x1 as int, y1 as int, 1),
                    fx as int,
                    fy as int,
                )
                &&& rgb.2 == blend_spec(
                    self.texel_spec(x0 as int, y0 as int, 2),
                    self.texel_spec(x1 as int, y0 as int, 2),
                    self.texel_spec(x0 as int, y1 as int, 2),
                    self.texel_spec(x1 as int, y1 as int, 2),
                    fx as int,
                    fy as int,
                )
            }),
    {
        let x1: u32 = (x0 + 1) % self.width;
        let y1: u32 = (y0 + 1) % self.height;
        let tl = self.texel(x0, y0);
        let tr = self.texel(x1, y0);
        let bl = self.texel(x0, y1);
        let br = self.texel(x1, y1);
        let r = blend_bilinear(tl.0, tr.0, bl.0, br.0, fx, fy);
        let g = blend_bilinear(tl.1, tr.1, bl.1, br.1, fx, fy);
        let b = blend_bilinear(tl.2, tr.2, bl.2, br.2, fx, fy);
        (r, g, b)
    }
}

/// Dimensions after the optional downscale of a loaded image: a positive
/// `target_width` caps the width at the source width and scales the height
/// down with it, preserving the aspect ratio and rounding down; a zero
/// `target_width` keeps the source size.
pub open spec fn resized_dims_spec(width: int, height: int, target_width: int) -> (int, int) {
    if target_width == 0 {
        (width, height)
    } else {
        let rw = if target_width < width {
            target_width
        } else {
            width
        };
        (rw, rw * height / width)
    }
}

/// Compute the dimensions to decode a texture at, downscaling to
/// `target_width` if that is positive and narrower than the source.
pub fn resize_dimensions(width: u32, height: u32, target_width: u32) -> (dims: (u32, u32))
    requires
        1 <= width,
    ensures
        dims.0 == resized_dims_spec(width as int, height as int, target_width as int).0,
        dims.1 == resized_dims_spec(width as int, height as int, target_width as int).1,
        dims.0 <= width,
        dims.1 <= height,
{
    if target_width == 0 {
        return (width, height);
    }
    let rw: u32 = if target_width < width {
        target_width
    } else {
        width
    };
    proof {
        assert(0 <= (rw as int) * (height as int) <= u64::MAX) by (nonlinear_arith)
            requires
                rw <= u32::MAX,
                height <= u32::MAX,
        ;
        assert((rw as int) * (height as int) / (width as int) <= height) by (nonlinear_arith)
            requires
                1 <= width,
                0 <= rw <= width,
                0 <= height,
        ;
    }
    let rh: u64 = (rw as u64) * (height as u64) / (width as u64);
    (rw, rh as u32)
}

/// Bilinear sampling at the four exact corners of the weight square returns
/// the corresponding corner texel, wrap-adjusted: under the contract of
/// `sample_bilinear`, weights `(0, 0)` give the texel at `(x0, y0)` itself,
/// and full weights pick the right, bottom or far neighbour, which wraps to
/// the opposite edge at the seam. Each value is scaled by the full weight
/// `WEIGHT_ONE * WEIGHT_ONE`.
pub proof fn lemma_sample_corners(t: Texture, x0: u32, y0: u32, c: int)
    requires
        t.well_formed(),
        x0 < t.spec_width(),
        y0 < t.spec_height(),
        0 <= c < 3,
    ensures
        ({
            let x1 = (x0 + 1) % (t.spec_width() as int);
            let y1 = (y0 + 1) % (t.spec_height() as int);
            let tl = t.texel_spec(x0 as int, y0 as int, c);
            let tr = t.texel_spec(x1, y0 as int, c);
            let bl = t.texel_spec(x0 as int, y1, c);
            let br = t.texel_spec(x1, y1, c);
            &&& blend_spec(tl, tr, bl, br, 0, 0) == tl * WEIGHT_ONE * WEIGHT_ONE
            &&& blend_spec(tl, tr, bl, br, WEIGHT_ONE as int, 0) == tr * WEIGHT_ONE * WEIGHT_ONE
            &&& blend_spec(tl, tr, bl, br, 0, WEIGHT_ONE as int) == bl * WEIGHT_ONE * WEIGHT_ONE
            &&& blend_spec(tl, tr, bl, br, WEIGHT_ONE as int, WEIGHT_ONE as int)
                == br * WEIGHT_ONE * WEIGHT_ONE
        }),
{
    let x1 = (x0 + 1) % (t.spec_width() as int);
    let y1 = (y0 + 1) % (t.spec_height() as int);
    lemma_blend_corners(
        t.texel_spec(x0 as int, y0 as int, c),
        t.texel_spec(x1, y0 as int, c),
        t.texel_spec(x0 as int, y1, c),
        t.texel_spec(x1, y1, c),
    );
}

/// The byte slot of an in-range texel coordinate lies inside the store.
proof fn lemma_texel_slot_in_range(x: int, y: int, width: int, height: int) by (nonlinear_arith)
    requires
        0 <= x < width,
        0 <= y < height,
    ensures
        0 <= 3 * (x + y * width),
        3 * (x + y * width) + 3 <= 3 * width * height,
{
}

/// Exact bilinear blend of one channel: the result is the numerator of the
/// weighted average of the four corner values over `WEIGHT_ONE * WEIGHT_ONE`.
pub fn blend_bilinear(tl: u8, tr: u8, bl: u8, br: u8, fx: u32, fy: u32) -> (n: u64)
    requires
        fx <= WEIGHT_ONE,
        fy <= WEIGHT_ONE,
    ensures
        n == blend_spec(tl, tr, bl, br, fx as int, fy as int),
        n <= 255 * WEIGHT_ONE * WEIGHT_ONE,
{
    let gx: u64 = (WEIGHT_ONE - fx) as u64;
    let gy: u64 = (WEIGHT_ONE - fy) as u64;
    let fx64: u64 = fx as u64;
    let fy64: u64 = fy as u64;
    proof {
        lemma_corner_term_bound(tl as int, gx as int, gy as int);
        lemma_corner_term_bound(tr as int, fx as int, gy as int);
        lemma_corner_term_bound(bl as int, gx as int, fy as int);
        lemma_corner_term_bound(br as int, fx as int, fy as int);
        lemma_blend_bounds(tl as int, tr as int, bl as int, br as int, fx as int, fy as int);
    }
    (tl as u64) * gx * gy + (tr as u64) * fx64 * gy + (bl as u64) * gx * fy64
        + (br as u64) * fx64 * fy64
}

/// One corner term of the blend stays within `255` scaled by the full
/// weight product.
proof fn lemma_corner_term_bound(t: int, a: int, b: int) by (nonlinear_arith)
    requires
        0 <= t <= 255,
        0 <= a <= WEIGHT_ONE,
        0 <= b <= WEIGHT_ONE,
    ensures
        0 <= t * a <= 255 * WEIGHT_ONE,
        0 <= t * a * b <= 255 * WEIGHT_ONE * WEIGHT_ONE,
{
}

/// Each corner term is bounded by `255` times the product of its weights, and
/// the four weight products sum to `WEIGHT_ONE * WEIGHT_ONE`.
proof fn lemma_blend_bounds(tl: int, tr: int, bl: int, br: int, fx: int, fy: int) by (nonlinear_arith)
    requires
        0 <= tl <= 255,
        0 <= tr <= 255,
        0 <= bl <= 255,
        0 <= br <= 255,
        0 <= fx <= WEIGHT_ONE,
        0 <= fy <= WEIGHT_ONE,
    ensures
        0 <= tl * (WEIGHT_ONE - fx) * (WEIGHT_ONE - fy) + tr * fx * (WEIGHT_ONE - fy)
            + bl * (WEIGHT_ONE - fx) * fy + br * fx * fy,
        tl * (WEIGHT_ONE - fx) * (WEIGHT_ONE - fy) + tr * fx * (WEIGHT_ONE - fy)
            + bl * (WEIGHT_ONE - fx) * fy + br * fx * fy <= 255 * WEIGHT_ONE * WEIGHT_ONE,
{
}

/// A blend whose fractional weights sit at an exact corner of the weight
/// square is that corner's texel, scaled by the full weight
/// `WEIGHT_ONE * WEIGHT_ONE`: with the wrap rule of `sample_bilinear`, a
/// sample taken exactly on a texel grid point returns that texel's value.
pub proof fn lemma_blend_corners(tl: u8, tr: u8, bl: u8, br: u8) by (nonlinear_arith)
    ensures
        blend_spec(tl, tr, bl, br, 0, 0) == tl * WEIGHT_ONE * WEIGHT_ONE,
        blend_spec(tl, tr, bl, br, WEIGHT_ONE as int, 0) == tr * WEIGHT_ONE * WEIGHT_ONE,
        blend_spec(tl, tr, bl, br, 0, WEIGHT_ONE as int) == bl * WEIGHT_ONE * WEIGHT_ONE,
        blend_spec(tl, tr, bl, br, WEIGHT_ONE as int, WEIGHT_ONE as int) == br * WEIGHT_ONE * WEIGHT_ONE,
{
}

} // verus!
