//! The integer skeleton of the math phase.
//!
//! The phase iterates a counter and, on each iteration, feeds
//! `counter mod 1000` into floating-point work (square root and sine) and
//! reduces its accumulator whenever that remainder is zero.  The
//! floating-point part cannot be verified; the cyclic index and the
//! reduction decision can, and are computed here.

use vstd::prelude::*;

verus! {

/// Length of the cycle the math phase walks through: the argument fed to the
/// floating-point functions is always the iteration index modulo this.
pub const MATH_CYCLE: u64 = 1000;

/// The input for one math-phase iteration: the cyclic index that the
/// floating-point work receives, and whether this iteration must apply the
/// periodic reduction to the accumulator.
pub fn math_step(i: u64) -> (r: (u64, bool))
    ensures
        r.0 == (i as int) % (MATH_CYCLE as int),
        r.0 < MATH_CYCLE,
        r.1 == ((i as int) % (MATH_CYCLE as int) == 0),
{
    let m = i % MATH_CYCLE;
    (m, m == 0)
}

} // verus!
