//! The grid sampler.
//!
//! A plane rectangle, given by its two corner values, is rasterized over a
//! width x height pixel grid. The pixels are traversed by one linear index
//! k over width * height, decomposed row-major as px = k % width and
//! py = k / width; pixel (px, py) is mapped to the plane coordinate
//! (re_lo + step_x * px, im_lo + step_y * py) with step_x the real span
//! over the width and step_y the imaginary span over the height, and that
//! coordinate is handed to the escape-time evaluator and the color mapper.

use vstd::prelude::*;
use vstd::arithmetic::div_mod::{
    lemma_div_pos_is_pos, lemma_fundamental_div_mod, lemma_fundamental_div_mod_converse,
    lemma_mod_division_less_than_divisor, lemma_multiply_divide_lt,
};
use complex_numbers::CompNum;
use crate::color::{color_for, color_spec, PixelColor};
use crate::escape::{escape_count, mandelbrot};

verus! {

/// One render configuration: the plane rectangle, the pixel dimensions
/// and the iteration budget shared by the whole grid.
#[derive(Clone, Copy)]
pub struct GridConfig {
    /// The corner of the rectangle mapped to pixel (0, 0):
    /// (re_lo, im_lo).
    pub lo: CompNum,
    /// The opposite corner of the rectangle: (re_hi, im_hi).
    pub hi: CompNum,
    /// Number of pixel columns.
    pub width: u32,
    /// Number of pixel rows.
    pub height: u32,
    /// The iteration budget of the escape-time evaluator.
    pub budget: u32,
}

/// A degenerate configuration, rejected before any sampling begins.
#[derive(Clone, Copy, Debug, PartialEq, Eq, Structural)]
pub enum GridError {
    /// The pixel grid has zero width or zero height, so no step size can
    /// be derived from the rectangle.
    EmptyGrid,
}

/// The plane coordinate of pixel (px, py): with spans taken from corner
/// `lo` to corner `hi`, the value
/// (re of lo + (re span / width) * px, im of lo + (im span / height) * py)
/// in IEEE-754 double arithmetic.
pub uninterp spec fn coord_of(lo: CompNum, hi: CompNum, width: u32, height: u32, px: u32, py: u32) -> CompNum;

/// Relies on std's double arithmetic and `complex_numbers::CompNum::from`:
/// computes exactly the affine pixel-to-plane map named by `coord_of`,
/// per component step = span / pixel count, coordinate = low corner
/// + step * pixel index.
#[verifier::external_body]
pub(crate) fn cn_coord(lo: &CompNum, hi: &CompNum, width: u32, height: u32, px: u32, py: u32) -> (r: CompNum)
    ensures
        r == coord_of(*lo, *hi, width, height, px, py),
{
    let counts = CompNum::from(width.into(), height.into());
    let pixels = CompNum::from(px.into(), py.into());
    let step_x = (hi.a - lo.a) / counts.a;
    let step_y = (hi.b - lo.b) / counts.b;
    CompNum::from(lo.a + step_x * pixels.a, lo.b + step_y * pixels.b)
}

/// The plane coordinate that the sampler hands to the evaluator for pixel
/// (px, py) of the configured grid.
pub fn pixel_coord(cfg: &GridConfig, px: u32, py: u32) -> (r: CompNum)
    ensures
        r == coord_of(cfg.lo, cfg.hi, cfg.width, cfg.height, px, py),
{
    cn_coord(&cfg.lo, &cfg.hi, cfg.width, cfg.height, px, py)
}

/// One sampled pixel: its grid index, its plane coordinate, its escape
/// count and the color the count maps to.
#[derive(Clone, Copy, Debug)]
pub struct Sample {
    /// Pixel column, in [0, width).
    pub px: u32,
    /// Pixel row, in [0, height).
    pub py: u32,
    /// The plane coordinate of the pixel.
    pub c: CompNum,
    /// The escape count of that coordinate, in [0, budget].
    pub count: u32,
    /// The color assigned to the count.
    pub color: PixelColor,
}

/// The number of pixels of the grid.
pub open spec fn grid_total(cfg: GridConfig) -> int {
    (cfg.width as int) * (cfg.height as int)
}

/// What the sample at linear index `k` must hold: the row-major pixel
/// index, its plane coordinate, the escape count of that coordinate, and
/// the color of that count.
pub open spec fn sample_ok(cfg: GridConfig, k: int, s: Sample) -> bool {
    &&& s.px as int == k % (cfg.width as int)
    &&& s.py as int == k / (cfg.width as int)
    &&& s.c == coord_of(cfg.lo, cfg.hi, cfg.width, cfg.height, s.px, s.py)
    &&& s.count as int == escape_count(s.c, cfg.budget)
    &&& s.count <= cfg.budget
    &&& s.color == color_spec(s.count, cfg.budget)
}

/// Samples the whole grid in row-major order: one sample for every linear
/// index k in [0, width * height), each holding exactly the pixel index
/// k decomposes to, its coordinate, its escape count and its color. A
/// grid with zero width or zero height is rejected instead.
pub fn render_grid(cfg: &GridConfig) -> (r: Result<Vec<Sample>, GridError>)
    requires
        (cfg.width as int) * (cfg.height as int) <= usize::MAX as int,
    ensures
        match r {
            Ok(samples) => {
                &&& cfg.width > 0
                &&& cfg.height > 0
                &&& samples@.len() == grid_total(*cfg)
                &&& forall|k: int|
                    0 <= k < samples@.len() ==> sample_ok(*cfg, k, #[trigger] samples@[k])
            },
            Err(e) => {
                &&& (cfg.width == 0 || cfg.height == 0)
                &&& e == GridError::EmptyGrid
            },
        },
{
    if cfg.width == 0 || cfg.height == 0 {
        return Err(GridError::EmptyGrid);
    }
    let w: usize = cfg.width as usize;
    let h: usize = cfg.height as usize;
    let total: usize = w * h;
    let mut samples: Vec<Sample> = Vec::new();
    let mut k: usize = 0;
    while k < total
        invariant
            cfg.width > 0,
            cfg.height > 0,
            w == cfg.width as usize,
            total as int == grid_total(*cfg),
            k <= total,
            samples@.len() == k,
            forall|i: int| 0 <= i < k ==> sample_ok(*cfg, i, #[trigger] samples@[i]),
        decreases total - k,
    {
        proof {
            lemma_mod_division_less_than_divisor(k as int, w as int);
            lemma_div_pos_is_pos(k as int, w as int);
            lemma_multiply_divide_lt(k as int, w as int, cfg.height as int);
        }
        let px: u32 = (k % w) as u32;
        let py: u32 = (k / w) as u32;
        let c = cn_coord(&cfg.lo, &cfg.hi, cfg.width, cfg.height, px, py);
        let count = mandelbrot(&c, cfg.budget);
        let color = color_for(count, cfg.budget);
        samples.push(Sample { px, py, c, count, color });
        k = k + 1;
    }
    Ok(samples)
}

/// In a full sample sequence of the grid, the pixel (px, py) is visited:
/// the sample at linear index py * width + px carries exactly that pixel
/// index.
pub proof fn lemma_grid_visits_pixel(cfg: GridConfig, samples: Seq<Sample>, px: u32, py: u32)
    requires
        cfg.width > 0,
        cfg.height > 0,
        samples.len() == grid_total(cfg),
        forall|k: int| 0 <= k < samples.len() ==> sample_ok(cfg, k, #[trigger] samples[k]),
        px < cfg.width,
        py < cfg.height,
    ensures
        0 <= (py as int) * (cfg.width as int) + (px as int) < samples.len(),
        samples[(py as int) * (cfg.width as int) + (px as int)].px == px,
        samples[(py as int) * (cfg.width as int) + (px as int)].py == py,
{
    lemma_pixel_index_bijection(cfg.width as int, cfg.height as int, px as int, py as int);
}

/// In a full sample sequence of the grid, no pixel is visited twice: two
/// samples that carry the same pixel index sit at the same linear index.
pub proof fn lemma_grid_no_pixel_twice(cfg: GridConfig, samples: Seq<Sample>, k1: int, k2: int)
    requires
        cfg.width > 0,
        cfg.height > 0,
        samples.len() == grid_total(cfg),
        forall|k: int| 0 <= k < samples.len() ==> sample_ok(cfg, k, #[trigger] samples[k]),
        0 <= k1 < samples.len(),
        0 <= k2 < samples.len(),
        samples[k1].px == samples[k2].px,
        samples[k1].py == samples[k2].py,
    ensures
        k1 == k2,
{
    lemma_linear_index_decomposition(cfg.width as int, cfg.height as int, k1);
    lemma_linear_index_decomposition(cfg.width as int, cfg.height as int, k2);
}

/// Every pixel (px, py) of a width x height grid is reached from exactly
/// one linear index, namely k = py * width + px: that index lies in
/// [0, width * height) and decomposes back to (px, py). Together with
/// `lemma_linear_index_decomposition` this makes the row-major traversal
/// a bijection between linear indices and pixel indices.
pub proof fn lemma_pixel_index_bijection(width: int, height: int, px: int, py: int)
    requires
        0 <= px < width,
        0 <= py < height,
    ensures
        0 <= py * width + px < width * height,
        (py * width + px) % width == px,
        (py * width + px) / width == py,
{
    assert(0 <= py * width + px < width * height) by (nonlinear_arith)
        requires
            0 <= px < width,
            0 <= py < height,
    ;
    lemma_fundamental_div_mod_converse(py * width + px, width, py, px);
}

/// Every linear index k of a width x height grid decomposes to one pixel
/// index inside the grid, and k is recovered from that pixel index: the
/// row-major traversal reaches no pixel twice and misses none.
pub proof fn lemma_linear_index_decomposition(width: int, height: int, k: int)
    requires
        width > 0,
        height > 0,
        0 <= k < width * height,
    ensures
        0 <= k % width < width,
        0 <= k / width < height,
        k == (k / width) * width + (k % width),
{
    lemma_mod_division_less_than_divisor(k, width);
    lemma_div_pos_is_pos(k, width);
    lemma_multiply_divide_lt(k, width, height);
    lemma_fundamental_div_mod(k, width);
}

} // verus!
