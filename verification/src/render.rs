//! Text helpers for the table rendering around the library.

use vstd::prelude::*;

verus! {

/// A separator line for the table header: `len` equals signs.
pub fn pad_equals(len: usize) -> (r: String)
    ensures
        r@.len() == len,
        forall|i: int| 0 <= i < len ==> r@[i] == '=',
{
    proof {
        reveal_strlit("=");
    }
    let mut r = String::new();
    let mut i: usize = 0;
    while i < len
        invariant
            0 <= i <= len,
            r@.len() == i,
            forall|q: int| 0 <= q < i ==> r@[q] == '=',
        decreases len - i,
    {
        proof {
            reveal_strlit("=");
        }
        r.append("=");
        i = i + 1;
    }
    r
}

} // verus!
