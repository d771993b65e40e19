//! Element-wise hamming distance calculation.
//!
//! The distance between two equal-length sequences is the number of
//! index positions at which their elements differ; texts are compared
//! character by character.
use vstd::laws_eq::obeys_concrete_eq;
use vstd::prelude::*;
use vstd::string::StrSliceExecFns;

use crate::LengthMismatch;

verus! {

/// Count of index positions at which two sequences hold different
/// elements. Meaningful when the sequences have equal length.
pub open spec fn mismatch_count<T>(a: Seq<T>, b: Seq<T>) -> int
    decreases a.len(),
{
    if a.len() == 0 {
        0
    } else {
        mismatch_count(a.drop_last(), b.drop_last()) + if a.last() == b.last() {
            0int
        } else {
            1int
        }
    }
}

/// Every sequence is at element-wise distance zero from itself.
pub proof fn lemma_element_distance_reflexive<T>(s: Seq<T>)
    ensures
        mismatch_count(s, s) == 0,
    decreases s.len(),
{
    if s.len() > 0 {
        lemma_element_distance_reflexive(s.drop_last());
    }
}

/// The element-wise distance between two equal-length sequences does
/// not depend on their order.
pub proof fn lemma_element_distance_symmetric<T>(a: Seq<T>, b: Seq<T>)
    requires
        a.len() == b.len(),
    ensures
        mismatch_count(a, b) == mismatch_count(b, a),
    decreases a.len(),
{
    if a.len() > 0 {
        lemma_element_distance_symmetric(a.drop_last(), b.drop_last());
    }
}

/// The element-wise distance between two equal-length sequences never
/// exceeds their length.
pub proof fn lemma_element_distance_bounded<T>(a: Seq<T>, b: Seq<T>)
    requires
        a.len() == b.len(),
    ensures
        0 <= mismatch_count(a, b) <= a.len(),
    decreases a.len(),
{
    if a.len() > 0 {
        lemma_element_distance_bounded(a.drop_last(), b.drop_last());
    }
}

/// Extending both prefixes by one position adds one exactly when the
/// elements at that position differ.
proof fn lemma_mismatch_count_take_step<T>(a: Seq<T>, b: Seq<T>, i: int)
    requires
        a.len() == b.len(),
        0 <= i < a.len(),
    ensures
        mismatch_count(a.take(i + 1), b.take(i + 1)) == mismatch_count(a.take(i), b.take(i)) + if a[i]
            == b[i] {
            0int
        } else {
            1int
        },
{
    assert(a.take(i + 1).drop_last() =~= a.take(i));
    assert(b.take(i + 1).drop_last() =~= b.take(i));
}

/// Hamming distance between two slices, counting the positions whose
/// elements compare unequal; errs when the lengths differ. The count
/// must fit in the `u32` result. The count is pinned down exactly for
/// element types whose equality test agrees with structural equality
/// (`obeys_concrete_eq`); for any other type it is still a count of at
/// most one per position.
pub fn element_distance<T: Eq>(a: &[T], b: &[T]) -> (r: Result<u32, LengthMismatch>)
    requires
        a@.len() == b@.len() ==> a@.len() <= u32::MAX,
    ensures
        a@.len() != b@.len() ==> r == Err::<u32, LengthMismatch>(LengthMismatch),
        a@.len() == b@.len() ==> (r matches Ok(d) && d <= a@.len()),
        a@.len() == b@.len() && obeys_concrete_eq::<T>() ==> (r matches Ok(d) && d
            == mismatch_count(a@, b@)),
{
    if a.len() != b.len() {
        return Err(LengthMismatch);
    }
    let n: usize = a.len();
    let mut distance: u32 = 0;
    let mut i: usize = 0;
    while i < n
        invariant
            n == a@.len(),
            n == b@.len(),
            n <= u32::MAX,
            i <= n,
            distance <= i,
            obeys_concrete_eq::<T>() ==> distance == mismatch_count(
                a@.take(i as int),
                b@.take(i as int),
            ),
        decreases n - i,
    {
        let x: &T = &a[i];
        let y: &T = &b[i];
        let same: bool = x == y;
        proof {
            reveal(obeys_concrete_eq);
            lemma_mismatch_count_take_step(a@, b@, i as int);
        }
        if !same {
            distance = distance + 1;
        }
        i = i + 1;
    }
    proof {
        assert(a@.take(n as int) =~= a@);
        assert(b@.take(n as int) =~= b@);
    }
    Ok(distance)
}

/// Hamming distance between two texts, compared character by
/// character; errs when the character counts differ. The count must
/// fit in the `u32` result.
pub fn element_distance_str(a: &str, b: &str) -> (r: Result<u32, LengthMismatch>)
    requires
        a@.len() == b@.len() ==> a@.len() <= u32::MAX,
    ensures
        a@.len() != b@.len() ==> r == Err::<u32, LengthMismatch>(LengthMismatch),
        a@.len() == b@.len() ==> (r matches Ok(d) && d == mismatch_count(a@, b@) && d <= a@.len()),
{
    let n: usize = a.unicode_len();
    let m: usize = b.unicode_len();
    if n != m {
        return Err(LengthMismatch);
    }
    let mut distance: u32 = 0;
    let mut i: usize = 0;
    while i < n
        invariant
            n == a@.len(),
            n == b@.len(),
            n <= u32::MAX,
            i <= n,
            distance <= i,
            distance == mismatch_count(a@.take(i as int), b@.take(i as int)),
        decreases n - i,
    {
        proof {
            lemma_mismatch_count_take_step(a@, b@, i as int);
        }
        let ca: char = a.get_char(i);
        let cb: char = b.get_char(i);
        if ca != cb {
            distance = distance + 1;
        }
        i = i + 1;
    }
    proof {
        assert(a@.take(n as int) =~= a@);
        assert(b@.take(n as int) =~= b@);
    }
    Ok(distance)
}

/// A trait for calculating hamming distance.
pub trait HammingDistancable<RHS> {
    /// The output type of the hamming distance.
    type Output;

    /// The inputs this implementation accepts: equal-length inputs must
    /// be short enough for the distance to fit in the output.
    spec fn hamming_distance_domain(&self, other: RHS) -> bool;

    /// What the computed distance is for the given inputs.
    spec fn hamming_distance_claim(&self, other: RHS, r: Self::Output) -> bool;

    fn hamming_distance(&self, other: RHS) -> (r: Self::Output)
        requires
            self.hamming_distance_domain(other),
        ensures
            self.hamming_distance_claim(other, r),
    ;
}

impl<'a, T: Eq> HammingDistancable<&'a Vec<T>> for Vec<T> {
    type Output = Result<u32, LengthMismatch>;

    open spec fn hamming_distance_domain(&self, other: &'a Vec<T>) -> bool {
        self@.len() == other@.len() ==> self@.len() <= u32::MAX
    }

    open spec fn hamming_distance_claim(
        &self,
        other: &'a Vec<T>,
        r: Result<u32, LengthMismatch>,
    ) -> bool {
        &&& self@.len() != other@.len() ==> r == Err::<u32, LengthMismatch>(LengthMismatch)
        &&& self@.len() == other@.len() ==> (r matches Ok(d) && d <= self@.len())
        &&& self@.len() == other@.len() && obeys_concrete_eq::<T>() ==> (r matches Ok(d) && d
            == mismatch_count(self@, other@))
    }

    /// Calculate the hamming distance between vectors.
    fn hamming_distance(&self, other: &'a Vec<T>) -> (r: Result<u32, LengthMismatch>) {
        element_distance(self.as_slice(), other.as_slice())
    }
}

impl<'a, T: Eq> HammingDistancable<&'a [T]> for [T] {
    type Output = Result<u32, LengthMismatch>;

    open spec fn hamming_distance_domain(&self, other: &'a [T]) -> bool {
        self@.len() == other@.len() ==> self@.len() <= u32::MAX
    }

    open spec fn hamming_distance_claim(
        &self,
        other: &'a [T],
        r: Result<u32, LengthMismatch>,
    ) -> bool {
        &&& self@.len() != other@.len() ==> r == Err::<u32, LengthMismatch>(LengthMismatch)
        &&& self@.len() == other@.len() ==> (r matches Ok(d) && d <= self@.len())
        &&& self@.len() == other@.len() && obeys_concrete_eq::<T>() ==> (r matches Ok(d) && d
            == mismatch_count(self@, other@))
    }

    /// Calculate the hamming distance between slices.
    fn hamming_distance(&self, other: &'a [T]) -> (r: Result<u32, LengthMismatch>) {
        element_distance(self, other)
    }
}

impl<'a> HammingDistancable<&'a String> for String {
    type Output = Result<u32, LengthMismatch>;

    open spec fn hamming_distance_domain(&self, other: &'a String) -> bool {
        self@.len() == other@.len() ==> self@.len() <= u32::MAX
    }

    open spec fn hamming_distance_claim(
        &self,
        other: &'a String,
        r: Result<u32, LengthMismatch>,
    ) -> bool {
        &&& self@.len() != other@.len() ==> r == Err::<u32, LengthMismatch>(LengthMismatch)
        &&& self@.len() == other@.len() ==> (r matches Ok(d) && d == mismatch_count(self@, other@)
            && d <= self@.len())
    }

    /// Calculate the hamming distance between strings, character by
    /// character.
    fn hamming_distance(&self, other: &'a String) -> (r: Result<u32, LengthMismatch>) {
        element_distance_str(self.as_str(), other.as_str())
    }
}

impl<'a> HammingDistancable<&'a str> for str {
    type Output = Result<u32, LengthMismatch>;

    open spec fn hamming_distance_domain(&self, other: &'a str) -> bool {
        self@.len() == other@.len() ==> self@.len() <= u32::MAX
    }

    open spec fn hamming_distance_claim(
        &self,
        other: &'a str,
        r: Result<u32, LengthMismatch>,
    ) -> bool {
        &&& self@.len() != other@.len() ==> r == Err::<u32, LengthMismatch>(LengthMismatch)
        &&& self@.len() == other@.len() ==> (r matches Ok(d) && d == mismatch_count(self@, other@)
            && d <= self@.len())
    }

    /// Calculate the hamming distance between borrowed strings,
    /// character by character.
    fn hamming_distance(&self, other: &'a str) -> (r: Result<u32, LengthMismatch>) {
        element_distance_str(self, other)
    }
}

} // verus!
