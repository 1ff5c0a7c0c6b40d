//! The color mapper.
//!
//! An escape count that reached the budget gets the fixed sentinel color,
//! black; every other count gets a hue/saturation/lightness color whose
//! hue is the fraction count / budget, with full saturation and half
//! lightness. The fraction is kept as the exact pair of integers, so the
//! ordering of hues is the ordering of rationals.

use vstd::prelude::*;

verus! {

/// A display color, as the sampling pipeline decides it.
#[derive(Clone, Copy, Debug, PartialEq, Eq, Structural)]
pub enum PixelColor {
    /// The sentinel for counts that reached the budget: fixed black.
    Sentinel,
    /// Hue count / budget (a fraction in [0, 1)), full saturation, half
    /// lightness.
    Band { count: u32, budget: u32 },
}

/// The color assigned to an escape count under a budget.
pub open spec fn color_spec(count: u32, budget: u32) -> PixelColor {
    if count == budget {
        PixelColor::Sentinel
    } else {
        (PixelColor::Band { count, budget })
    }
}

/// Whether the hue of `a` is strictly below the hue of `b`: both are
/// banded colors and the fractions compare by cross-multiplication.
pub open spec fn hue_lt(a: PixelColor, b: PixelColor) -> bool {
    match (a, b) {
        (PixelColor::Band { count: c1, budget: b1 }, PixelColor::Band { count: c2, budget: b2 }) =>
            (c1 as int) * (b2 as int) < (c2 as int) * (b1 as int),
        _ => false,
    }
}

/// Maps an escape count to its color: the sentinel exactly when the count
/// reached the budget, and the banded hue count / budget otherwise.
pub fn color_for(count: u32, budget: u32) -> (r: PixelColor)
    requires
        count <= budget,
    ensures
        r == color_spec(count, budget),
        count == budget ==> r == PixelColor::Sentinel,
        count < budget ==> (r == PixelColor::Band { count, budget }),
{
    if count == budget {
        PixelColor::Sentinel
    } else {
        PixelColor::Band { count, budget }
    }
}

/// Of two escaping counts under one budget, the smaller count gets the
/// strictly smaller hue: the banded hues are monotone in the count.
pub proof fn lemma_hue_monotonic(c1: u32, c2: u32, budget: u32)
    requires
        c1 < c2,
        c2 < budget,
    ensures
        hue_lt(color_spec(c1, budget), color_spec(c2, budget)),
{
    assert((c1 as int) * (budget as int) < (c2 as int) * (budget as int)) by (nonlinear_arith)
        requires
            c1 < c2,
            budget > 0,
    ;
}

} // verus!
