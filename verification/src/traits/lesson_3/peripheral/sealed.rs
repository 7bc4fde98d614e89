//! Keeps the set of peripherals closed.

use vstd::prelude::*;

verus! {

pub trait Sealed {

}

} // verus!
