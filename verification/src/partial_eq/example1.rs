//! One item against none.

use crate::partial_eq::List;
use vstd::prelude::*;

verus! {

/// Builds a list of one item and an empty list, and compares the two: they
/// differ.
pub fn run() -> (equal: bool)
    ensures
        !equal,
{
    let mut list1 = List::<Option<usize>>::new();
    let list2 = List::<Option<usize>>::new();
    list1.push(Some(1));
    list1.is_equal_to(&list2)
}

} // verus!
