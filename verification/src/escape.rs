//! The escape-time evaluator.
//!
//! `mandelbrot` iterates `z <- z * z + c`, seeding the orbit with `c`
//! itself, and counts the iterations until the magnitude of `z` exceeds
//! the escape radius two, capped at a budget.

use vstd::prelude::*;
use complex_numbers::CompNum;
use crate::complex::{add_of, cn_add, cn_escapes, cn_mult, cn_of, escapes_of, mult_of};

verus! {

/// One step of the orbit: z * z + c.
pub open spec fn orbit_step(z: CompNum, c: CompNum) -> CompNum {
    add_of(mult_of(z, z), c)
}

/// The count that the evaluator returns when the orbit has already reached
/// `z` after `count` steps: the first index in [count, budget] whose orbit
/// value escapes, or `budget` if none of them does.
pub open spec fn escape_within(z: CompNum, c: CompNum, budget: int, count: int) -> int
    decreases budget + 1 - count,
{
    if count > budget {
        budget
    } else if escapes_of(z) {
        count
    } else {
        escape_within(orbit_step(z, c), c, budget, count + 1)
    }
}

/// The escape count of `c` under the given budget, for an orbit seeded
/// with `c`.
pub open spec fn escape_count(c: CompNum, budget: u32) -> int {
    escape_within(c, c, budget as int, 0)
}

/// Escape-time evaluator. The orbit is seeded with `c`; while the
/// magnitude of the orbit value stays within the escape radius two, the
/// orbit is advanced by `z <- z * z + c`. The result is the number of
/// steps taken before the first escape, or `budget` when the orbit does
/// not escape within the budget. The result always lies in [0, budget],
/// and the origin, a fixed point of the map, never escapes.
pub fn mandelbrot(c: &CompNum, budget: u32) -> (r: u32)
    ensures
        r as int == escape_count(*c, budget),
        r <= budget,
        *c == cn_of(0, 0) ==> r == budget,
{
    let mut z: CompNum = *c;
    let mut count: u32 = 0;
    while count < budget
        invariant
            count <= budget,
            escape_count(*c, budget) == escape_within(z, *c, budget as int, count as int),
            *c == cn_of(0, 0) ==> z == cn_of(0, 0),
        decreases budget - count,
    {
        if cn_escapes(&z) {
            return count;
        }
        let zz = cn_mult(&z, &z);
        z = cn_add(&zz, c);
        count = count + 1;
    }
    proof {
        reveal_with_fuel(escape_within, 2);
    }
    budget
}

} // verus!
