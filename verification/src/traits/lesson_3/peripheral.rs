//! A peripheral, and the handle through which a driver holds one.

use std::marker::PhantomData;
use std::ops::Deref;
use std::ops::DerefMut;
use vstd::prelude::*;
use vstd::std_specs::convert::IntoSpec;

pub mod sealed;

verus! {

/// A peripheral in a driver's hands, for as long as `'a` lasts.
pub struct PeripheralRef<'a, T> {
    inner: T,
    _lifetime: PhantomData<&'a mut T>,
}

impl<'a, T> PeripheralRef<'a, T> {
    /// The peripheral that is held.
    pub closed spec fn peripheral(&self) -> T {
        self.inner
    }

    pub fn new(inner: T) -> (handle: Self)
        ensures
            handle.peripheral() == inner,
    {
        Self { inner, _lifetime: PhantomData }
    }

    /// A second handle to the same peripheral, which lives as long as the
    /// first. Only one of the two may be in use at a time: the compiler
    /// does not see to that here. Prefer `reborrow`.
    pub fn clone_unchecked(&mut self) -> (handle: PeripheralRef<'a, T>) where T: Peripheral<P = T>
        ensures
            handle.peripheral() == old(self).peripheral().duplicate(),
            final(self).peripheral() == old(self).peripheral(),
    {
        PeripheralRef::new(self.inner.clone_unchecked())
    }

    /// A second handle to the same peripheral. `self` stays borrowed until
    /// that handle is dropped.
    pub fn reborrow(&mut self) -> (handle: PeripheralRef<'_, T>) where T: Peripheral<P = T>
        ensures
            handle.peripheral() == old(self).peripheral().duplicate(),
            final(self).peripheral() == old(self).peripheral(),
    {
        PeripheralRef::new(self.inner.clone_unchecked())
    }

    /// A handle to what the peripheral converts into.
    pub fn map_into<U>(self) -> (handle: PeripheralRef<'a, U>) where T: Into<U>
        ensures
            <T as IntoSpec<U>>::obeys_into_spec() ==> handle.peripheral() == IntoSpec::<
                U,
            >::into_spec(self.peripheral()),
    {
        PeripheralRef { inner: self.inner.into(), _lifetime: PhantomData }
    }
}

impl<'a, T> Deref for PeripheralRef<'a, T> {
    type Target = T;

    fn deref(&self) -> (inner: &Self::Target)
        ensures
            *inner == self.peripheral(),
    {
        &self.inner
    }
}

impl<'a, T> DerefMut for PeripheralRef<'a, T> {
    fn deref_mut(&mut self) -> (inner: &mut Self::Target)
        ensures
            *inner == old(self).peripheral(),
            final(self).peripheral() == *final(inner),
    {
        &mut self.inner
    }
}

/// Any type that can be used as a peripheral of type `P`.
pub trait Peripheral: Sized + sealed::Sealed {
    /// Peripheral singleton type
    type P;

    /// What a second handle to this peripheral is.
    spec fn duplicate(&self) -> Self::P;

    /// A second handle to the same peripheral. Only one of the two may be
    /// in use at a time. Prefer `into_ref`.
    fn clone_unchecked(&mut self) -> (duplicate: Self::P)
        ensures
            duplicate == old(self).duplicate(),
            *final(self) == *old(self),
    ;

    /// The peripheral in a handle.
    fn into_ref<'a>(self) -> (handle: PeripheralRef<'a, Self::P>) where Self: 'a
        ensures
            handle.peripheral() == self.duplicate(),
    {
        let mut this = self;
        PeripheralRef::new(this.clone_unchecked())
    }
}

} // verus!
