//! Bitwise hamming distance calculation.
//!
//! The distance between two bytes is the population count of their xor:
//! the number of bit positions at which they differ. Over equal-length
//! byte sequences the distances are summed position-wise.
use vstd::prelude::*;

use crate::LengthMismatch;

verus! {

/// Population count of a byte: the number of set bits.
pub open spec fn popcount8(x: u8) -> int {
    (x & 1) as int + ((x >> 1) & 1) as int + ((x >> 2) & 1) as int + ((x >> 3) & 1) as int
        + ((x >> 4) & 1) as int + ((x >> 5) & 1) as int + ((x >> 6) & 1) as int + ((x >> 7)
        & 1) as int
}

/// Bitwise hamming distance between two bytes: the number of bit
/// positions at which they differ.
pub open spec fn bit_distance_of(a: u8, b: u8) -> int {
    popcount8(a ^ b)
}

/// Summed bitwise hamming distance of two byte sequences, position-wise.
/// Meaningful when the sequences have equal length.
pub open spec fn bit_distance_sum(a: Seq<u8>, b: Seq<u8>) -> int
    decreases a.len(),
{
    if a.len() == 0 {
        0
    } else {
        bit_distance_sum(a.drop_last(), b.drop_last()) + bit_distance_of(a.last(), b.last())
    }
}

/// A byte's population count lies between 0 and 8.
pub proof fn lemma_popcount8_bounded(x: u8)
    ensures
        0 <= popcount8(x) <= 8,
{
    assert((x & 1) <= 1 && ((x >> 1) & 1) <= 1 && ((x >> 2) & 1) <= 1 && ((x >> 3) & 1) <= 1 && ((x
        >> 4) & 1) <= 1 && ((x >> 5) & 1) <= 1 && ((x >> 6) & 1) <= 1 && ((x >> 7) & 1) <= 1)
        by (bit_vector);
}

/// Every byte is at bitwise distance zero from itself.
pub proof fn lemma_bit_distance_reflexive(x: u8)
    ensures
        bit_distance_of(x, x) == 0,
{
    assert(x ^ x == 0) by (bit_vector);
    assert((0u8 & 1) == 0 && ((0u8 >> 1) & 1) == 0 && ((0u8 >> 2) & 1) == 0 && ((0u8 >> 3) & 1) == 0
        && ((0u8 >> 4) & 1) == 0 && ((0u8 >> 5) & 1) == 0 && ((0u8 >> 6) & 1) == 0 && ((0u8 >> 7)
        & 1) == 0) by (bit_vector);
}

/// The bitwise distance between two bytes does not depend on their order.
pub proof fn lemma_bit_distance_symmetric(a: u8, b: u8)
    ensures
        bit_distance_of(a, b) == bit_distance_of(b, a),
{
    assert(a ^ b == b ^ a) by (bit_vector);
}

/// The bitwise distance between two bytes never exceeds the bit width.
pub proof fn lemma_bit_distance_bounded(a: u8, b: u8)
    ensures
        0 <= bit_distance_of(a, b) <= 8,
{
    lemma_popcount8_bounded(a ^ b);
}

/// The summed distance over equal-length sequences is at most eight
/// times their length.
pub proof fn lemma_bit_distance_sum_bounded(a: Seq<u8>, b: Seq<u8>)
    requires
        a.len() == b.len(),
    ensures
        0 <= bit_distance_sum(a, b) <= 8 * a.len(),
    decreases a.len(),
{
    if a.len() > 0 {
        lemma_bit_distance_sum_bounded(a.drop_last(), b.drop_last());
        lemma_bit_distance_bounded(a.last(), b.last());
    }
}

/// Extending both prefixes by one position adds that position's distance.
proof fn lemma_bit_distance_sum_take_step(a: Seq<u8>, b: Seq<u8>, i: int)
    requires
        a.len() == b.len(),
        0 <= i < a.len(),
    ensures
        bit_distance_sum(a.take(i + 1), b.take(i + 1)) == bit_distance_sum(a.take(i), b.take(i))
            + bit_distance_of(a[i], b[i]),
{
    assert(a.take(i + 1).drop_last() =~= a.take(i));
    assert(b.take(i + 1).drop_last() =~= b.take(i));
}

/// The number of bit positions at which two bytes differ.
pub fn bit_distance(a: u8, b: u8) -> (r: u32)
    ensures
        r == bit_distance_of(a, b),
        r <= 8,
{
    let x: u8 = a ^ b;
    let r: u32 = (x & 1) as u32 + ((x >> 1) & 1) as u32 + ((x >> 2) & 1) as u32 + ((x >> 3)
        & 1) as u32 + ((x >> 4) & 1) as u32 + ((x >> 5) & 1) as u32 + ((x >> 6) & 1) as u32 + ((x
        >> 7) & 1) as u32;
    proof {
        lemma_popcount8_bounded(x);
    }
    r
}

/// Summed bitwise hamming distance of two byte slices; errs when the
/// lengths differ. The sum of up to 8 per byte must fit in the `u32`
/// result.
pub fn bit_distance_seq(a: &[u8], b: &[u8]) -> (r: Result<u32, LengthMismatch>)
    requires
        a@.len() == b@.len() ==> 8 * a@.len() <= u32::MAX,
    ensures
        a@.len() == b@.len() ==> (r matches Ok(d) && d == bit_distance_sum(a@, b@)),
        a@.len() != b@.len() ==> r == Err::<u32, LengthMismatch>(LengthMismatch),
{
    if a.len() != b.len() {
        return Err(LengthMismatch);
    }
    let n: usize = a.len();
    let mut distance: u32 = 0;
    let mut i: usize = 0;
    while i < n
        invariant
            n == a@.len(),
            n == b@.len(),
            8 * n <= u32::MAX,
            i <= n,
            distance == bit_distance_sum(a@.take(i as int), b@.take(i as int)),
        decreases n - i,
    {
        proof {
            lemma_bit_distance_sum_bounded(a@.take(i as int), b@.take(i as int));
            lemma_bit_distance_sum_take_step(a@, b@, i as int);
        }
        let d: u32 = bit_distance(a[i], b[i]);
        distance = distance + d;
        i = i + 1;
    }
    proof {
        assert(a@.take(n as int) =~= a@);
        assert(b@.take(n as int) =~= b@);
    }
    Ok(distance)
}

/// A trait for calculating the bitwise hamming distance.
pub trait BitwiseHammingDistancable<RHS> {
    /// The output type of the hamming distance.
    type Output;

    /// The inputs this implementation accepts: equal-length inputs must
    /// be short enough for the distance to fit in the output.
    spec fn bitwise_distance_domain(&self, other: RHS) -> bool;

    /// What the computed distance is for the given inputs.
    spec fn bitwise_distance_claim(&self, other: RHS, r: Self::Output) -> bool;

    fn bitwise_hamming_distance(&self, other: RHS) -> (r: Self::Output)
        requires
            self.bitwise_distance_domain(other),
        ensures
            self.bitwise_distance_claim(other, r),
    ;
}

impl<'a> BitwiseHammingDistancable<&'a u8> for u8 {
    type Output = u32;

    open spec fn bitwise_distance_domain(&self, other: &'a u8) -> bool {
        true
    }

    open spec fn bitwise_distance_claim(&self, other: &'a u8, r: u32) -> bool {
        r == bit_distance_of(*self, *other)
    }

    /// Calculate the number of different bits between two `u8` bytes.
    fn bitwise_hamming_distance(&self, other: &'a u8) -> (r: u32) {
        bit_distance(*self, *other)
    }
}

impl<'a> BitwiseHammingDistancable<&'a Vec<u8>> for Vec<u8> {
    type Output = Result<u32, LengthMismatch>;

    open spec fn bitwise_distance_domain(&self, other: &'a Vec<u8>) -> bool {
        self@.len() == other@.len() ==> 8 * self@.len() <= u32::MAX
    }

    open spec fn bitwise_distance_claim(
        &self,
        other: &'a Vec<u8>,
        r: Result<u32, LengthMismatch>,
    ) -> bool {
        &&& self@.len() == other@.len() ==> (r matches Ok(d) && d == bit_distance_sum(
            self@,
            other@,
        ))
        &&& self@.len() != other@.len() ==> r == Err::<u32, LengthMismatch>(LengthMismatch)
    }

    /// Calculate the number of different bits between two vectors of
    /// `u8` bytes.
    fn bitwise_hamming_distance(&self, other: &'a Vec<u8>) -> (r: Result<u32, LengthMismatch>) {
        bit_distance_seq(self.as_slice(), other.as_slice())
    }
}

impl<'a> BitwiseHammingDistancable<&'a [u8]> for [u8] {
    type Output = Result<u32, LengthMismatch>;

    open spec fn bitwise_distance_domain(&self, other: &'a [u8]) -> bool {
        self@.len() == other@.len() ==> 8 * self@.len() <= u32::MAX
    }

    open spec fn bitwise_distance_claim(
        &self,
        other: &'a [u8],
        r: Result<u32, LengthMismatch>,
    ) -> bool {
        &&& self@.len() == other@.len() ==> (r matches Ok(d) && d == bit_distance_sum(
            self@,
            other@,
        ))
        &&& self@.len() != other@.len() ==> r == Err::<u32, LengthMismatch>(LengthMismatch)
    }

    /// Calculate the number of different bits between two slices of
    /// `u8` bytes.
    fn bitwise_hamming_distance(&self, other: &'a [u8]) -> (r: Result<u32, LengthMismatch>) {
        bit_distance_seq(self, other)
    }
}

} // verus!
