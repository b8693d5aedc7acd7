//! Ascending number sequences, generated two ways with one contract.

use vstd::prelude::*;

verus! {

/// The numbers `1` up to `limit` in ascending order: the sequence has
/// exactly `limit` elements and its `i`-th element is `i + 1`.
pub fn generate_sequence(limit: u8) -> (numbers: Vec<u8>)
    ensures
        numbers@.len() == limit as int,
        forall|i: int| 0 <= i < limit as int ==> numbers@[i] as int == i + 1,
{
    let mut numbers: Vec<u8> = Vec::new();
    let mut n: u8 = 0;
    while n < limit
        invariant
            n <= limit,
            numbers@.len() == n as int,
            forall|i: int| 0 <= i < n as int ==> numbers@[i] as int == i + 1,
        decreases limit as int - n as int,
    {
        n = n + 1;
        numbers.push(n);
    }
    numbers
}

/// The same ascending run `1` up to `limit`, built into a vector whose
/// final capacity is reserved up front.
pub fn generate_sequence_by_collection(limit: u8) -> (numbers: Vec<u8>)
    ensures
        numbers@.len() == limit as int,
        forall|i: int| 0 <= i < limit as int ==> numbers@[i] as int == i + 1,
{
    let mut numbers: Vec<u8> = Vec::with_capacity(limit as usize);
    let mut n: u8 = 0;
    while n < limit
        invariant
            n <= limit,
            numbers@.len() == n as int,
            forall|i: int| 0 <= i < n as int ==> numbers@[i] as int == i + 1,
        decreases limit as int - n as int,
    {
        n = n + 1;
        numbers.push(n);
    }
    numbers
}

} // verus!
