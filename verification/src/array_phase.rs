//! The array phase: fill a buffer with the ascending values `0..n` and sum
//! it into a 64-bit accumulator.  The sum of such a buffer is the triangular
//! number `n * (n - 1) / 2`.

use vstd::prelude::*;

verus! {

/// The mathematical sum of a sequence of 32-bit values.
pub open spec fn seq_sum(s: Seq<u32>) -> int
    decreases s.len(),
{
    if s.len() == 0 {
        0
    } else {
        seq_sum(s.drop_last()) + s.last()
    }
}

/// Extending a prefix by one element adds that element to its sum.
proof fn lemma_seq_sum_take_succ(s: Seq<u32>, j: int)
    requires
        0 <= j < s.len(),
    ensures
        seq_sum(s.take(j + 1)) == seq_sum(s.take(j)) + s[j],
{
    assert(s.take(j + 1).drop_last() =~= s.take(j));
    assert(s.take(j + 1).last() == s[j]);
}

/// A sum of 32-bit values is bounded by the element count times the largest
/// 32-bit value.
proof fn lemma_seq_sum_bound(s: Seq<u32>)
    ensures
        0 <= seq_sum(s) <= s.len() * 0xffff_ffff,
    decreases s.len(),
{
    if s.len() > 0 {
        lemma_seq_sum_bound(s.drop_last());
    }
}

/// Doubling the sum of the ascending buffer `0, 1, .., n-1` gives
/// `n * (n - 1)`: the familiar pairing argument, stated without division.
proof fn lemma_ascending_sum_double(s: Seq<u32>)
    requires
        forall|i: int| 0 <= i < s.len() ==> s[i] == i as u32,
        s.len() <= 0x1_0000_0000,
    ensures
        2 * seq_sum(s) == s.len() * (s.len() - 1),
    decreases s.len(),
{
    if s.len() > 0 {
        let n = s.len() as int;
        lemma_ascending_sum_double(s.drop_last());
        assert(2 * seq_sum(s) == (n - 1) * (n - 2) + 2 * (n - 1));
        assert((n - 1) * (n - 2) + 2 * (n - 1) == n * (n - 1)) by (nonlinear_arith);
    }
}

/// The sum of the ascending buffer in the usual closed form.
pub proof fn lemma_ascending_sum(s: Seq<u32>)
    requires
        forall|i: int| 0 <= i < s.len() ==> s[i] == i as u32,
        s.len() <= 0x1_0000_0000,
    ensures
        seq_sum(s) == s.len() * (s.len() - 1) / 2,
{
    let n = s.len() as int;
    lemma_ascending_sum_double(s);
    assert(seq_sum(s) == (2 * seq_sum(s)) / 2) by (nonlinear_arith);
}

/// Fill a buffer of length `n` with the values `0..n` in index order.
pub fn fill_buffer(n: usize) -> (r: Vec<u32>)
    requires
        n <= 0x1_0000_0000,
    ensures
        r@.len() == n,
        forall|i: int| 0 <= i < n ==> r@[i] == i as u32,
{
    let mut buf: Vec<u32> = Vec::new();
    let mut i: usize = 0;
    while i < n
        invariant
            i <= n,
            n <= 0x1_0000_0000,
            buf@.len() == i,
            forall|j: int| 0 <= j < i ==> buf@[j] == j as u32,
        decreases n - i,
    {
        buf.push(i as u32);
        i = i + 1;
    }
    buf
}

/// Sum the buffer into a 64-bit accumulator, eight elements per step as long
/// as eight remain, then one at a time.  The widening keeps the arithmetic
/// exact: the largest possible sum still fits in 64 bits.
pub fn sum_buffer(buf: &Vec<u32>) -> (r: u64)
    requires
        buf@.len() <= 0x1_0000_0000,
    ensures
        r == seq_sum(buf@),
{
    let n = buf.len();
    let mut sum: u64 = 0;
    let mut i: usize = 0;
    while n - i >= 8
        invariant
            i <= n,
            n == buf@.len(),
            n <= 0x1_0000_0000,
            sum == seq_sum(buf@.take(i as int)),
        decreases n - i,
    {
        proof {
            lemma_seq_sum_bound(buf@.take(i as int + 8));
            lemma_seq_sum_take_succ(buf@, i as int);
            lemma_seq_sum_take_succ(buf@, i as int + 1);
            lemma_seq_sum_take_succ(buf@, i as int + 2);
            lemma_seq_sum_take_succ(buf@, i as int + 3);
            lemma_seq_sum_take_succ(buf@, i as int + 4);
            lemma_seq_sum_take_succ(buf@, i as int + 5);
            lemma_seq_sum_take_succ(buf@, i as int + 6);
            lemma_seq_sum_take_succ(buf@, i as int + 7);
        }
        sum = sum + buf[i] as u64;
        sum = sum + buf[i + 1] as u64;
        sum = sum + buf[i + 2] as u64;
        sum = sum + buf[i + 3] as u64;
        sum = sum + buf[i + 4] as u64;
        sum = sum + buf[i + 5] as u64;
        sum = sum + buf[i + 6] as u64;
        sum = sum + buf[i + 7] as u64;
        i = i + 8;
    }
    while i < n
        invariant
            i <= n,
            n == buf@.len(),
            n <= 0x1_0000_0000,
            sum == seq_sum(buf@.take(i as int)),
        decreases n - i,
    {
        proof {
            lemma_seq_sum_bound(buf@.take(i as int + 1));
            lemma_seq_sum_take_succ(buf@, i as int);
        }
        sum = sum + buf[i] as u64;
        i = i + 1;
    }
    proof {
        assert(buf@.take(n as int) =~= buf@);
    }
    sum
}

/// The whole array phase: build the ascending buffer of length `n` and sum
/// it.  The result is exactly the triangular number `n * (n - 1) / 2`.
pub fn array_phase_sum(n: usize) -> (r: u64)
    requires
        n <= 0x1_0000_0000,
    ensures
        r == (n as int) * (n as int - 1) / 2,
        2 * r == (n as int) * (n as int - 1),
{
    let buf = fill_buffer(n);
    let sum = sum_buffer(&buf);
    proof {
        lemma_ascending_sum(buf@);
        lemma_ascending_sum_double(buf@);
    }
    sum
}

} // verus!
