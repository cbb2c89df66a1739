//! A verified core for a small three-phase benchmark: an array fill-and-sum
//! phase, a text-building phase, and a math phase driven by a cyclic index.
//! The deterministic computations of each phase live here with full
//! contracts; wall-clock timing, floating-point accumulation and console
//! output are left to the surrounding binary.

pub mod array_phase;
pub mod math_phase;
pub mod report;
pub mod text_phase;

use vstd::prelude::*;

verus! {

/// Determinism of the computational phases: their results are functions of
/// the sizes alone, so two runs with the same sizes agree.  Any two values
/// that meet the array phase's contract for the same length are equal, and
/// any two texts that meet the string phase's contract for the same count
/// are equal.
pub proof fn lemma_phases_deterministic(
    n: int,
    r1: int,
    r2: int,
    c: int,
    t1: Seq<char>,
    t2: Seq<char>,
)
    requires
        r1 == n * (n - 1) / 2,
        r2 == n * (n - 1) / 2,
        t1.len() == c,
        t2.len() == c,
        forall|i: int| 0 <= i < c ==> t1[i] == crate::text_phase::FILL_CHAR,
        forall|i: int| 0 <= i < c ==> t2[i] == crate::text_phase::FILL_CHAR,
    ensures
        r1 == r2,
        t1 == t2,
{
    assert(t1 =~= t2);
}

} // verus!
