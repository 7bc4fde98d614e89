//! A counter behind shared ownership, and a copy of it that is changed.

use std::sync::Arc;
use vstd::prelude::*;

verus! {

#[derive(Debug, Clone)]
pub struct Entity {
    counter: Arc<Box<u8>>,
}

impl Entity {
    /// The number that the counter stands at.
    pub closed spec fn count(&self) -> u8 {
        **self.counter
    }

    /// An entity whose counter stands at zero.
    pub fn new() -> (entity: Self)
        ensures
            entity.count() == 0,
    {
        Self { counter: Arc::new(Box::new(0)) }
    }
}

/// `Box::leak`: the boxed number is never freed, and what is handed out is
/// the one reference to it, valid for the rest of the program.
#[verifier::external_body]
fn leak(number: Box<u8>) -> (leaked: &'static mut u8)
    ensures
        *leaked == *number,
{
    Box::leak(number)
}

/// Copies an entity's counter to a place of its own and changes the copy:
/// the entity's counter stays at zero. Returns the copy and the counter.
pub fn run() -> (numbers: (u8, u8))
    ensures
        numbers == (2u8, 0u8),
{
    let new_box = Entity::new();
    let static_ref: &'static mut u8 = leak(Box::new(**new_box.counter));
    assert(*static_ref == 0);
    *static_ref = 2;
    assert(*static_ref == 2);
    let counter = **new_box.counter;
    assert(counter == 0);
    (*static_ref, counter)
}

} // verus!
