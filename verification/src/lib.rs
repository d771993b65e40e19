//! Hamming distances over bytes and sequences.
//!
//! Two independent, stateless components:
//! - bitwise hamming distance: how many bit positions differ between two
//!   bytes, summed across equal-length byte sequences;
//! - element-wise hamming distance: at how many index positions two
//!   equal-length sequences (or texts, compared character by character)
//!   differ.
//!
//! Comparing inputs of unequal length is always an error, reported as
//! [`LengthMismatch`].
use vstd::prelude::*;

pub mod bitwise_hamming_distance;
pub mod hamming_distance;

verus! {

/// The two inputs of a distance computation did not have equal length.
#[derive(Clone, Copy, Debug, PartialEq, Eq, Structural)]
pub struct LengthMismatch;

} // verus!
