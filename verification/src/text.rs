use vstd::prelude::*;

verus! {

/// Equality of two string slices: whether both hold the same sequence of
/// characters. Each slice is copied into an owned string for the comparison.
pub(crate) fn same_text(a: &str, b: &str) -> (r: bool)
    ensures
        r == (a@ == b@),
{
    let x: String = a.to_owned();
    let y: String = b.to_owned();
    x == y
}

} // verus!
