//! The rasterizer core: resampling a matrix of gradient indices to an
//! arbitrary target resolution.
//!
//! The spectrogram matrix arrives as columns of gradient indices, one
//! byte per cell (the caller normalizes decibel magnitudes into the
//! `0..=255` range beforehand; that normalization is monotone, so
//! taking the maximum of indices equals taking the index of the maximum
//! magnitude). Each output pixel column covers a half-open range of
//! source columns and takes the **maximum** cell over that range — a
//! max-pool that preserves short transients when many time columns
//! collapse into one pixel column. Rows are remapped nearest-neighbor
//! and flipped so that low frequency bins render at the bottom.

use vstd::prelude::*;

verus! {

use crate::srend::{Color, Gradient};
use vstd::arithmetic::div_mod::{
    lemma_div_pos_is_pos,
    lemma_fundamental_div_mod_converse,
    lemma_multiply_divide_le,
    lemma_multiply_divide_lt,
};
use vstd::arithmetic::mul::{
    lemma_mul_inequality,
    lemma_mul_nonnegative,
    lemma_mul_strict_inequality,
};

/// The background color of pixels no spectrogram data reaches.
pub open spec fn spec_background() -> Color {
    Color { r: 0, g: 0, b: 0 }
}

/// First source column covered by output column `x`.
pub open spec fn spec_start_col(x: int, width: int, master_width: int) -> int {
    x * master_width / width
}

/// One past the last source column covered by output column `x`; at
/// least one source column is always covered, even under extreme
/// downscale.
pub open spec fn spec_end_col(x: int, width: int, master_width: int) -> int {
    let e = (x + 1) * master_width / width;
    let s = spec_start_col(x, width, master_width) + 1;
    if e < s {
        s
    } else {
        e
    }
}

/// Source frequency bin shown in output row `y`; the row index is
/// flipped so that bin 0 (DC) lands on the bottom row of the image.
pub open spec fn spec_freq_bin(y: int, height: int, master_height: int) -> int {
    (height - 1 - y) * master_height / height
}

/// Cell `bin` of source column `c`; columns too short to reach `bin`
/// contribute the background index 0.
pub open spec fn spec_cell(cells: Seq<Vec<u8>>, c: int, bin: int) -> int {
    if 0 <= bin < cells[c]@.len() {
        cells[c]@[bin] as int
    } else {
        0
    }
}

/// Maximum cell over the source columns `[lo, hi)` at row `bin`,
/// at least 0.
pub open spec fn spec_range_max(cells: Seq<Vec<u8>>, lo: int, hi: int, bin: int) -> int
    decreases hi - lo,
{
    if lo >= hi {
        0
    } else {
        let prev = spec_range_max(cells, lo, hi - 1, bin);
        let last = spec_cell(cells, hi - 1, bin);
        if last > prev {
            last
        } else {
            prev
        }
    }
}

/// Color of output pixel `(x, y)`: the gradient entry of the pooled
/// maximum index over the covered source columns.
pub open spec fn spec_pixel(
    cells: Seq<Vec<u8>>,
    grad: Seq<Color>,
    width: int,
    height: int,
    x: int,
    y: int,
) -> Color {
    let mw = cells.len() as int;
    let mh = cells[0]@.len() as int;
    grad[spec_range_max(
        cells,
        spec_start_col(x, width, mw),
        spec_end_col(x, width, mw),
        spec_freq_bin(y, height, mh),
    )]
}

/// The full rendered pixel grid, row-major: pixel `(x, y)` sits at
/// index `y * width + x`. An empty matrix renders as a background-only
/// image. Rendering is a pure function of the matrix, the gradient and
/// the target size.
pub open spec fn spec_render(
    cells: Seq<Vec<u8>>,
    grad: Seq<Color>,
    width: int,
    height: int,
) -> Seq<Color> {
    if cells.len() == 0 {
        Seq::new((width * height) as nat, |i: int| spec_background())
    } else {
        Seq::new(
            (width * height) as nat,
            |i: int| spec_pixel(cells, grad, width, height, i % width, i / width),
        )
    }
}

/// A width × height grid of colors, row-major, origin at the top left.
pub struct RasterImage {
    width: u32,
    height: u32,
    pixels: Vec<Color>,
}

impl RasterImage {
    /// The pixel grid, row-major.
    pub closed spec fn view(self) -> Seq<Color> {
        self.pixels@
    }

    /// Width in pixels.
    pub closed spec fn spec_width(self) -> u32 {
        self.width
    }

    /// Height in pixels.
    pub closed spec fn spec_height(self) -> u32 {
        self.height
    }

    /// Well-formedness: the grid holds exactly width × height pixels.
    pub open spec fn wf(self) -> bool {
        self.view().len() == self.spec_width() as int * self.spec_height() as int
    }

    /// A blank image of the given size, every pixel at the background
    /// color.
    pub fn new(width: u32, height: u32) -> (img: RasterImage)
        requires
            width as int * height as int <= usize::MAX,
        ensures
            img.wf(),
            img.spec_width() == width,
            img.spec_height() == height,
            forall|i: int| 0 <= i < img.view().len() ==> img.view()[i] == spec_background(),
    {
        let n: usize = (width as usize) * (height as usize);
        let mut pixels: Vec<Color> = Vec::new();
        let mut i: usize = 0;
        while i < n
            invariant
                i <= n,
                pixels@.len() == i,
                forall|j: int| 0 <= j < i ==> pixels@[j] == spec_background(),
            decreases n - i,
        {
            pixels.push(Color { r: 0, g: 0, b: 0 });
            i = i + 1;
        }
        RasterImage { width, height, pixels }
    }

    /// Width in pixels.
    pub fn width(&self) -> (w: u32)
        ensures
            w == self.spec_width(),
    {
        self.width
    }

    /// Height in pixels.
    pub fn height(&self) -> (h: u32)
        ensures
            h == self.spec_height(),
    {
        self.height
    }

    /// The pixel `(x, y)`.
    pub fn get_pixel(&self, x: u32, y: u32) -> (c: Color)
        requires
            self.wf(),
            x < self.spec_width(),
            y < self.spec_height(),
        ensures
            c == self.view()[y as int * self.spec_width() as int + x as int],
    {
        let n = self.pixels.len();
        proof {
            lemma_mul_inequality(y as int, self.height as int - 1, self.width as int);
            assert((self.height as int - 1) * self.width as int
                == self.height as int * self.width as int - self.width as int) by (nonlinear_arith);
            assert(self.height as int * self.width as int
                == self.width as int * self.height as int) by (nonlinear_arith);
        }
        let idx: usize = (y as usize) * (self.width as usize) + (x as usize);
        self.pixels[idx]
    }

    /// The whole pixel grid, row-major; this is what an image encoder
    /// consumes.
    pub fn pixel_data(&self) -> (d: &Vec<Color>)
        ensures
            d@ == self.view(),
    {
        &self.pixels
    }
}

/// Bounds of the resampling indices: every output column maps to a
/// non-empty, in-range span of source columns, and every output row to
/// a source bin below `master_height`.
proof fn lemma_scale_bounds(x: int, w: int, m: int)
    requires
        0 <= x < w,
        0 <= m,
    ensures
        0 <= x * m / w,
        m > 0 ==> x * m / w < m,
        (x + 1) * m / w <= m,
{
    lemma_mul_nonnegative(x, m);
    lemma_div_pos_is_pos(x * m, w);
    if m > 0 {
        lemma_mul_strict_inequality(x, w, m);
        assert(x * m < w * m);
        lemma_multiply_divide_lt(x * m, w, m);
    }
    lemma_mul_inequality(x + 1, w, m);
    assert((x + 1) * m <= w * m);
    lemma_multiply_divide_le((x + 1) * m, w, m);
}

/// Renders a matrix of gradient indices to a `width` × `height` image.
///
/// Each cell of `cells` (one inner vector per time column) is a
/// gradient index; the caller maps magnitudes to indices monotonically,
/// so the max-pool over indices performed here preserves the peak cell
/// of the covered span. Columns shorter than the first one contribute
/// the background index 0 for their missing rows, and an empty matrix
/// yields a blank background image of the requested size.
pub fn render_indexed(cells: &Vec<Vec<u8>>, width: u32, height: u32, gradient: &Gradient) -> (img:
    RasterImage)
    requires
        gradient.wf(),
        width as int * height as int <= usize::MAX,
        width as int * cells@.len() <= usize::MAX,
        cells@.len() > 0 ==> height as int * cells@[0]@.len() <= usize::MAX,
    ensures
        img.wf(),
        img.spec_width() == width,
        img.spec_height() == height,
        img.view() == spec_render(cells@, gradient.view(), width as int, height as int),
{
    if cells.len() == 0 {
        let img = RasterImage::new(width, height);
        proof {
            assert(img.view() =~= spec_render(cells@, gradient.view(), width as int, height as int));
        }
        return img;
    }

    let master_width: usize = cells.len();
    let master_height: usize = cells[0].len();
    let w: usize = width as usize;
    let h: usize = height as usize;
    let ghost target = spec_render(cells@, gradient.view(), width as int, height as int);

    let mut pixels: Vec<Color> = Vec::new();
    let mut y: usize = 0;
    while y < h
        invariant
            gradient.wf(),
            cells@.len() == master_width,
            master_width >= 1,
            cells@[0]@.len() == master_height,
            w == width,
            h == height,
            w * h <= usize::MAX,
            w * master_width <= usize::MAX,
            h * master_height <= usize::MAX,
            target == spec_render(cells@, gradient.view(), width as int, height as int),
            y <= h,
            pixels@.len() == y * w,
            forall|i: int| 0 <= i < pixels@.len() ==> pixels@[i] == target[i],
        decreases h - y,
    {
        proof {
            lemma_mul_inequality(y as int + 1, h as int, w as int);
            assert((y as int + 1) * w == y as int * w + w) by (nonlinear_arith);
            assert(h as int * w as int == w as int * h as int) by (nonlinear_arith);
        }
        // Flip the row: low frequency bins at the bottom of the image.
        proof {
            lemma_mul_inequality(h as int - 1 - y as int, h as int, master_height as int);
            lemma_scale_bounds(h as int - 1 - y as int, h as int, master_height as int);
        }
        let freq_bin: usize = ((h - 1 - y) * master_height) / h;

        let mut x: usize = 0;
        while x < w
            invariant
                gradient.wf(),
                cells@.len() == master_width,
                master_width >= 1,
                cells@[0]@.len() == master_height,
                w == width,
                h == height,
                w * h <= usize::MAX,
                w * master_width <= usize::MAX,
                h * master_height <= usize::MAX,
                target == spec_render(cells@, gradient.view(), width as int, height as int),
                y < h,
                x <= w,
                freq_bin as int == spec_freq_bin(y as int, h as int, master_height as int),
                pixels@.len() == y * w + x,
                forall|i: int| 0 <= i < pixels@.len() ==> pixels@[i] == target[i],
            decreases w - x,
        {
            proof {
                lemma_mul_inequality(x as int + 1, w as int, master_width as int);
                assert((x as int + 1) * master_width as int
                    == x as int * master_width as int + master_width as int) by (nonlinear_arith);
                lemma_scale_bounds(x as int, w as int, master_width as int);
            }
            let start_col: usize = (x * master_width) / w;
            let end_candidate: usize = ((x + 1) * master_width) / w;
            // Guarantee at least one source column even under extreme
            // downscale.
            let end_col: usize = if end_candidate < start_col + 1 {
                start_col + 1
            } else {
                end_candidate
            };
            assert(end_col as int == spec_end_col(x as int, w as int, master_width as int));
            assert(start_col < master_width && end_col <= master_width);

            // Max-pool over the covered source columns.
            let mut cur: u8 = 0;
            let mut c: usize = start_col;
            while c < end_col
                invariant
                    cells@.len() == master_width,
                    start_col <= c <= end_col,
                    end_col <= master_width,
                    cur as int == spec_range_max(cells@, start_col as int, c as int, freq_bin as int),
                decreases end_col - c,
            {
                let column = &cells[c];
                if freq_bin < column.len() {
                    let v = column[freq_bin];
                    if v > cur {
                        cur = v;
                    }
                }
                c = c + 1;
            }

            let px = gradient.get(cur);
            proof {
                let wi = w as int;
                let hi = h as int;
                let i = y as int * wi + x as int;
                lemma_fundamental_div_mod_converse(i, wi, y as int, x as int);
                lemma_mul_inequality(y as int, hi - 1, wi);
                assert((hi - 1) * wi == hi * wi - wi) by (nonlinear_arith);
                assert(hi * wi == wi * hi) by (nonlinear_arith);
                assert(0 <= i < wi * hi);
                assert(target.len() == (wi * hi) as nat);
                assert(target[i] == spec_pixel(
                    cells@,
                    gradient.view(),
                    wi,
                    hi,
                    x as int,
                    y as int,
                ));
                assert(cur as int == spec_range_max(
                    cells@,
                    spec_start_col(x as int, wi, master_width as int),
                    spec_end_col(x as int, wi, master_width as int),
                    spec_freq_bin(y as int, hi, master_height as int),
                ));
                assert(target[i] == px);
            }
            pixels.push(px);
            x = x + 1;
        }
        y = y + 1;
    }
    proof {
        assert(h as int * w as int == w as int * h as int) by (nonlinear_arith);
        assert(pixels@ =~= target);
    }
    RasterImage { width, height, pixels }
}

/// Rendering is deterministic: the pixel grid is a pure function of
/// the index matrix, the gradient and the target size, so two renders
/// of identical inputs are identical pixel for pixel.
pub proof fn lemma_render_deterministic(
    a: RasterImage,
    b: RasterImage,
    cells: Seq<Vec<u8>>,
    grad: Seq<Color>,
    width: u32,
    height: u32,
)
    requires
        a.view() == spec_render(cells, grad, width as int, height as int),
        b.view() == spec_render(cells, grad, width as int, height as int),
    ensures
        a.view() == b.view(),
{
}

} // verus!
