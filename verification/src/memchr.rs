//! Byte scanner: find the first occurrence of a byte value in a byte slice.

use vstd::prelude::*;
use vstd::slice::slice_index_get;

verus! {

/// Returns the index of the first occurrence of `needle` in `haystack`, or
/// `None` if `needle` does not occur at all.
///
/// The scan never reads past the end of `haystack`; on an empty haystack the
/// result is always `None`, whatever the target byte.
pub fn memchr(needle: u8, haystack: &[u8]) -> (r: Option<usize>)
    ensures
        match r {
            Some(i) => {
                &&& 0 <= i < haystack@.len()
                &&& haystack@[i as int] == needle
                &&& forall|j: int| 0 <= j < i ==> haystack@[j] != needle
            },
            None => forall|j: int| 0 <= j < haystack@.len() ==> haystack@[j] != needle,
        },
        haystack@.len() == 0 ==> r is None,
{
    let n: usize = haystack.len();
    let mut i: usize = 0;
    while i < n
        invariant
            n == haystack@.len(),
            0 <= i <= n,
            forall|j: int| 0 <= j < i ==> haystack@[j] != needle,
        decreases n - i,
    {
        if *slice_index_get(haystack, i) == needle {
            return Some(i);
        }
        i = i + 1;
    }
    None
}

} // verus!
