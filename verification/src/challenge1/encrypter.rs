//! The derivation of a key into a buffer that the caller lends.

use crate::challenge1::derived_key;
use crate::challenge1::process_pbkdf_key;
use crate::challenge1::KEY_BUFF_SIZE;
use std::marker::PhantomData;
use vstd::prelude::*;

verus! {

#[derive(Debug)]
pub struct Encrypter<'a, S> {
    key: &'a mut Box<[u8; KEY_BUFF_SIZE]>,
    _phat: PhantomData<&'a S>,
}

impl<'a, S> Encrypter<'a, S> {
    /// The bytes that the lent buffer holds.
    pub closed spec fn key_view(&self) -> Seq<u8> {
        self.key@
    }

    pub fn new(buf: &'a mut Box<[u8; KEY_BUFF_SIZE]>) -> (encrypter: Self)
        ensures
            encrypter.key_view() == old(buf)@,
    {
        Self { key: buf, _phat: PhantomData }
    }
}

pub trait Encryptable {
    type KeyBuf;

    fn pbkdf_key(&mut self, password: &str, salt: &str) -> Self::KeyBuf;
}

impl<T> Encryptable for Encrypter<'_, T> {
    type KeyBuf = [u8; KEY_BUFF_SIZE];

    /// Derives the key from the password and the salt into the lent buffer
    /// and hands out a copy of it.
    fn pbkdf_key(&mut self, password: &str, salt: &str) -> (key: Self::KeyBuf)
        ensures
            key@ == derived_key(password@, salt@),
            final(self).key_view() == key@,
    {
        let _ = process_pbkdf_key(&mut self.key, password, salt);
        **self.key
    }
}

} // verus!
