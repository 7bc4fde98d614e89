//! A list that can be compared with another list of its kind.

use vstd::prelude::*;
use vstd::std_specs::cmp::PartialEqSpec;

pub mod example1;

verus! {

#[derive(Debug)]
pub struct List<T> {
    memory: Vec<T>,
}

impl<T> View for List<T> {
    type V = Seq<T>;

    closed spec fn view(&self) -> Seq<T> {
        self.memory@
    }
}

/// Two sequences are equal item by item, as `==` of the items sees it.
pub open spec fn items_equal<T: PartialEq>(left: Seq<T>, right: Seq<T>) -> bool {
    &&& left.len() == right.len()
    &&& forall|i: int| #![auto] 0 <= i < left.len() ==> left[i].eq_spec(&right[i])
}

impl<T: PartialEq> PartialEq for List<T> {
    fn eq(&self, other: &Self) -> (equal: bool) {
        self.memory == other.memory
    }
}

impl<T: PartialEq> vstd::std_specs::cmp::PartialEqSpecImpl for List<T> {
    open spec fn obeys_eq_spec() -> bool {
        T::obeys_eq_spec()
    }

    open spec fn eq_spec(&self, other: &Self) -> bool {
        items_equal(self@, other@)
    }
}

impl<T: PartialEq> Default for List<T> {
    fn default() -> (list: Self)
        ensures
            list@ == Seq::<T>::empty(),
    {
        List { memory: Vec::new() }
    }
}

impl<T: PartialEq> List<T> {
    /// An empty list.
    pub fn new() -> (list: Self)
        ensures
            list@ == Seq::<T>::empty(),
    {
        List { memory: Vec::new() }
    }

    /// Adds `value` at the end of the list.
    pub fn push(&mut self, value: T)
        ensures
            final(self)@ == old(self)@.push(value),
    {
        self.memory.push(value);
    }

    /// Whether the two lists are equal, item by item. Neither list changes.
    pub fn is_equal_to(&mut self, other: &List<T>) -> (equal: bool)
        ensures
            *final(self) == *old(self),
            T::obeys_eq_spec() ==> equal == items_equal(old(self)@, other@),
    {
        *self == *other
    }
}

/// Runs the example: its two lists differ.
pub fn runner() -> (equal: bool)
    ensures
        !equal,
{
    example1::run()
}

} // verus!
