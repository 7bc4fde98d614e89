//! A trait method that takes a closure and stays callable on any entity.

use vstd::prelude::*;

verus! {

pub struct Entity {}

pub trait X {
    /// Calls `f` once and hands on what it returns.
    fn foo<F: Fn() -> u8>(&self, f: &F) -> (response: u8)
        requires
            call_requires(*f, ()),
        ensures
            call_ensures(*f, (), response),
    ;
}

impl X for Entity {
    fn foo<F: Fn() -> u8>(&self, f: &F) -> (response: u8) {
        let x = (*f)();
        x
    }
}

pub fn do_closure() -> (ten: u8)
    ensures
        ten == 10,
{
    10
}

/// Hands a closure that squares ten, and then a plain function, to one
/// entity: the responses are a hundred and ten.
pub fn run() -> (responses: (u8, u8))
    ensures
        responses == (100u8, 10u8),
{
    let e = Entity {  };
    let x: u8 = 10;
    let c = move || -> (square: u8)
        ensures
            square == 100,
        { x * x };
    let resp = e.foo(&c);
    let resp2 = e.foo(&do_closure);
    (resp, resp2)
}

} // verus!
