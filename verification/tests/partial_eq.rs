use lessons::partial_eq::example1::run;
use lessons::partial_eq::{runner, List};

#[test]
fn one_item_differs_from_none() {
    assert!(!run());
    assert!(!runner());
}

#[test]
fn empty_lists_are_equal() {
    let mut left = List::<Option<usize>>::new();
    let right = List::<Option<usize>>::default();
    assert!(left.is_equal_to(&right));
    assert!(left == right);
}

#[test]
fn lists_are_compared_item_by_item() {
    let mut left = List::<u32>::new();
    let mut right = List::<u32>::new();
    left.push(1);
    left.push(2);
    right.push(1);
    assert!(!left.is_equal_to(&right));
    right.push(2);
    assert!(left.is_equal_to(&right));
    right.push(3);
    assert!(!left.is_equal_to(&right));
    let mut swapped = List::<u32>::new();
    swapped.push(2);
    swapped.push(1);
    assert!(!left.is_equal_to(&swapped));
}
