//! The data-shaping step of the CSV conversion utility: pairing a record's
//! fields with the header row, truncated to the shorter of the two.  The
//! caller parses the CSV and serializes the pairs.

use vstd::prelude::*;

verus! {

/// Pairs each header with the record field in the same column; columns
/// beyond the shorter row are dropped.
pub fn pair_columns(headers: &Vec<String>, record: &Vec<String>) -> (r: Vec<(String, String)>)
    ensures
        r@.len() == vstd::math::min(headers@.len() as int, record@.len() as int),
        forall|i: int|
            0 <= i < r@.len() ==> (#[trigger] r@[i]).0@ == headers@[i]@ && r@[i].1@ == record@[i]@,
{
    let n = if headers.len() < record.len() {
        headers.len()
    } else {
        record.len()
    };
    let mut r: Vec<(String, String)> = Vec::new();
    let mut i: usize = 0;
    while i < n
        invariant
            0 <= i <= n,
            n == vstd::math::min(headers@.len() as int, record@.len() as int),
            r@.len() == i,
            forall|j: int|
                0 <= j < i ==> (#[trigger] r@[j]).0@ == headers@[j]@ && r@[j].1@ == record@[j]@,
        decreases n - i,
    {
        r.push((headers[i].clone(), record[i].clone()));
        i = i + 1;
    }
    r
}

} // verus!
