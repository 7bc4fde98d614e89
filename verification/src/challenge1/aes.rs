//! AES-256-GCM-SIV on a buffer, in place.

use aes_gcm_siv::aead::AeadInPlace;
use aes_gcm_siv::KeyInit;
use crate::error::LessonError;
use std::marker::PhantomData;
use vstd::prelude::*;
use vstd::utf8::encode_utf8;

verus! {

/// The length of a key in bytes.
pub const KEY_SIZE: usize = 32;

/// The length in bytes of what the cipher takes as its nonce.
pub const NONCE_SIZE: usize = 12;

/// The length in bytes of the tag that sealing adds to a message.
pub const TAG_SIZE: usize = 16;

/// The longest message, in bytes, that the cipher seals.
pub const P_MAX: u64 = 0x10_0000_0000;

/// What sealing makes of a message under a key and a nonce, with no
/// associated data: the encrypted message, followed by its tag.
pub uninterp spec fn aes256_gcm_siv_sealed(
    key: Seq<u8>,
    nonce: Seq<u8>,
    message: Seq<u8>,
) -> Seq<u8>;

/// The message that opening finds in a buffer under a key and a nonce, with
/// no associated data, or `None` where the buffer was not sealed under them.
pub uninterp spec fn aes256_gcm_siv_opened(
    key: Seq<u8>,
    nonce: Seq<u8>,
    sealed: Seq<u8>,
) -> Option<Seq<u8>>;

/// The error of `aead`. It says nothing of its cause, on purpose.
#[verifier::external_type_specification]
#[verifier::external_body]
pub struct ExAeadError(aes_gcm_siv::Error);

/// `Aes256GcmSiv::generate_key` on the operating system's random number
/// generator. Nothing is known of the key but its length.
#[verifier::external_body]
fn generate_key() -> (key: [u8; KEY_SIZE]) {
    aes_gcm_siv::Aes256GcmSiv::generate_key(&mut aes_gcm_siv::aead::OsRng).into()
}

/// `heapless::Vec::new`, copied into a vector of std: no bytes.
#[verifier::external_body]
fn empty_bytes() -> (bytes: Vec<u8>)
    ensures
        bytes@ == Seq::<u8>::empty(),
{
    heapless::Vec::<u8, 128>::new().to_vec()
}

/// `AeadInPlace::encrypt_in_place` of `Aes256GcmSiv`, with no associated
/// data. A message of at most `P_MAX` bytes is sealed, and the buffer then
/// holds the encrypted message and, behind it, the tag; a longer one is
/// refused, and the buffer stays as it was.
#[verifier::external_body]
fn seal_in_place(
    key: &[u8; KEY_SIZE],
    nonce: &[u8; NONCE_SIZE],
    buffer: &mut Vec<u8>,
) -> (outcome: Result<(), aes_gcm_siv::Error>)
    ensures
        outcome is Ok <==> old(buffer)@.len() <= P_MAX,
        outcome is Ok ==> final(buffer)@ == aes256_gcm_siv_sealed(key@, nonce@, old(buffer)@),
        outcome is Ok ==> final(buffer)@.len() == old(buffer)@.len() + TAG_SIZE,
        outcome is Err ==> final(buffer)@ == old(buffer)@,
{
    let cipher = aes_gcm_siv::Aes256GcmSiv::new(key.into());
    cipher.encrypt_in_place(nonce.into(), b"", buffer)
}

/// `AeadInPlace::decrypt_in_place` of `Aes256GcmSiv`, with no associated
/// data. Where the buffer was sealed under the key and the nonce, it then
/// holds the message alone; else the call fails and the buffer stays as it
/// was. What was sealed from a message of at most `P_MAX` bytes opens to
/// that message.
#[verifier::external_body]
fn open_in_place(
    key: &[u8; KEY_SIZE],
    nonce: &[u8; NONCE_SIZE],
    buffer: &mut Vec<u8>,
) -> (outcome: Result<(), aes_gcm_siv::Error>)
    ensures
        outcome is Ok <==> aes256_gcm_siv_opened(key@, nonce@, old(buffer)@) is Some,
        outcome is Ok ==> Some(final(buffer)@) == aes256_gcm_siv_opened(
            key@,
            nonce@,
            old(buffer)@,
        ),
        outcome is Ok ==> final(buffer)@.len() + TAG_SIZE == old(buffer)@.len(),
        outcome is Err ==> final(buffer)@ == old(buffer)@,
        forall|message: Seq<u8>|
            message.len() <= P_MAX && old(buffer)@ == #[trigger] aes256_gcm_siv_sealed(
                key@,
                nonce@,
                message,
            ) ==> outcome is Ok && final(buffer)@ == message,
{
    let cipher = aes_gcm_siv::Aes256GcmSiv::new(key.into());
    cipher.decrypt_in_place(nonce.into(), b"", buffer)
}

/// A growable byte buffer for a cipher to work in.
#[derive(Debug)]
pub struct AesVecBuffer<'a, A> {
    inner: Vec<u8>,
    _life: PhantomData<&'a A>,
}

impl<'a, A> View for AesVecBuffer<'a, A> {
    type V = Seq<u8>;

    closed spec fn view(&self) -> Seq<u8> {
        self.inner@
    }
}

impl<'a, A> AesVecBuffer<'a, A> {
    /// The bytes of the buffer, to read and to change.
    pub fn inner(&mut self) -> (bytes: &mut Vec<u8>)
        ensures
            bytes@ == old(self)@,
            final(self)@ == final(bytes)@,
    {
        &mut self.inner
    }

    /// Adds `other` at the end of the buffer. This never fails.
    pub fn extend_from_slice(&mut self, other: &[u8]) -> (outcome: Result<(), LessonError>)
        ensures
            outcome == Ok::<(), LessonError>(()),
            final(self)@ == old(self)@ + other@,
    {
        self.inner.extend_from_slice(other);
        Ok(())
    }

    /// Cuts the buffer down to its first `len` bytes. A buffer that is no
    /// longer than that stays as it is.
    pub fn truncate(&mut self, len: usize)
        ensures
            final(self)@ == if len <= old(self)@.len() {
                old(self)@.take(len as int)
            } else {
                old(self)@
            },
    {
        self.inner.truncate(len);
        assert(old(self)@.subrange(0, len as int) =~= old(self)@.take(len as int));
    }

    /// The number of bytes in the buffer.
    pub fn len(&self) -> (len: usize)
        ensures
            len == self@.len(),
    {
        self.as_ref().len()
    }

    /// Whether the buffer holds no byte.
    pub fn is_empty(&self) -> (empty: bool)
        ensures
            empty == (self@.len() == 0),
    {
        self.as_ref().len() == 0
    }

    /// The bytes of the buffer.
    pub fn as_ref(&self) -> (bytes: &[u8])
        ensures
            bytes@ == self@,
    {
        self.inner.as_slice()
    }

    /// The bytes of the buffer, to change in place.
    pub fn as_mut(&mut self) -> (bytes: &mut [u8])
        ensures
            bytes@ == old(self)@,
            final(self)@ == final(bytes)@,
    {
        self.inner.as_mut_slice()
    }

    /// Whether the buffer holds exactly the bytes of `other`.
    pub fn eq<const N: usize>(&self, other: &[u8; N]) -> (equal: bool)
        ensures
            equal == (self@ == other@),
    {
        if self.inner.len() != N {
            return false;
        }
        let mut i: usize = 0;
        while i < N
            invariant
                i <= N,
                self@.len() == N,
                other@.len() == N,
                forall|j: int| 0 <= j < i ==> self@[j] == other@[j],
            decreases N - i,
        {
            if self.inner[i] != other[i] {
                return false;
            }
            i += 1;
        }
        assert(self@ =~= other@);
        true
    }

    /// Whether the buffer differs from `other`.
    pub fn ne<const N: usize>(&self, other: &[u8; N]) -> (differ: bool)
        ensures
            differ == (self@ != other@),
    {
        !self.eq(other)
    }
}

/// The first bytes of a nonce's text, as many as the cipher takes.
pub open spec fn short_nonce(nonce: Seq<char>) -> Seq<u8> {
    encode_utf8(nonce).take(NONCE_SIZE as int)
}

/// A message in a buffer, with the key and the nonce under which it is
/// sealed and opened.
pub struct AesEncrypter<'a> {
    key: [u8; KEY_SIZE],
    nonce: String,
    buffer: AesVecBuffer<'a, ()>,
}

impl<'a> AesEncrypter<'a> {
    /// The key.
    pub closed spec fn key_view(&self) -> Seq<u8> {
        self.key@
    }

    /// The text that the nonce is taken from.
    pub closed spec fn nonce_view(&self) -> Seq<char> {
        self.nonce@
    }

    /// The bytes in the buffer.
    pub closed spec fn buffer_view(&self) -> Seq<u8> {
        self.buffer@
    }

    /// Whether the nonce's text is long enough to take a nonce from.
    pub open spec fn nonce_suffices(&self) -> bool {
        encode_utf8(self.nonce_view()).len() >= NONCE_SIZE
    }

    /// What sealing makes of `message` under this key and nonce.
    pub open spec fn sealed(&self, message: Seq<u8>) -> Seq<u8> {
        aes256_gcm_siv_sealed(self.key_view(), short_nonce(self.nonce_view()), message)
    }

    /// What opening finds in `sealed` under this key and nonce.
    pub open spec fn opened(&self, sealed: Seq<u8>) -> Option<Seq<u8>> {
        aes256_gcm_siv_opened(self.key_view(), short_nonce(self.nonce_view()), sealed)
    }

    /// An encrypter with a fresh random key, whose buffer holds the bytes
    /// of `plaintext`.
    pub fn new(nonce: String, plaintext: &'a str) -> (encrypter: Self)
        ensures
            encrypter.nonce_view() == nonce@,
            encrypter.buffer_view() == encode_utf8(plaintext@),
    {
        let key = generate_key();
        let inner = empty_bytes();
        let mut buffer = AesVecBuffer::<()> { inner, _life: PhantomData };
        let _ = buffer.extend_from_slice(plaintext.as_bytes());
        assert(Seq::<u8>::empty() + encode_utf8(plaintext@) =~= encode_utf8(plaintext@));
        Self { key, nonce, buffer }
    }

    /// The text that the nonce is taken from.
    pub fn nonce(&self) -> (nonce: &str)
        ensures
            nonce@ == self.nonce_view(),
    {
        self.nonce.as_str()
    }

    /// The buffer, to read and to change.
    pub fn buffer(&mut self) -> (buffer: &mut AesVecBuffer<'a, ()>)
        ensures
            buffer@ == old(self).buffer_view(),
            final(self).buffer_view() == final(buffer)@,
            final(self).key_view() == old(self).key_view(),
            final(self).nonce_view() == old(self).nonce_view(),
    {
        &mut self.buffer
    }

    /// The first bytes of the nonce's text, or an error where the text is
    /// too short.
    fn nonce_bytes(&self) -> (nonce: Result<[u8; NONCE_SIZE], LessonError>)
        ensures
            self.nonce_suffices() ==> (nonce matches Ok(bytes) && bytes@ == short_nonce(
                self.nonce_view(),
            )),
            !self.nonce_suffices() ==> nonce == Err::<[u8; NONCE_SIZE], LessonError>(
                LessonError::NonceTooShort,
            ),
    {
        let bytes = self.nonce.as_str().as_bytes();
        if bytes.len() < NONCE_SIZE {
            return Err(LessonError::NonceTooShort);
        }
        let mut short_nonce = [0u8; NONCE_SIZE];
        let mut i: usize = 0;
        while i < NONCE_SIZE
            invariant
                i <= NONCE_SIZE,
                bytes@.len() >= NONCE_SIZE,
                forall|j: int| 0 <= j < i ==> short_nonce@[j] == bytes@[j],
            decreases NONCE_SIZE - i,
        {
            short_nonce[i] = bytes[i];
            i += 1;
        }
        assert(short_nonce@ =~= bytes@.take(NONCE_SIZE as int));
        Ok(short_nonce)
    }

    /// Seals the message in the buffer: the buffer then holds the encrypted
    /// message and its tag. Where the nonce's text is too short, or the
    /// message too long for the cipher, nothing changes.
    pub fn encrypt_in_place(&mut self) -> (outcome: Result<(), LessonError>)
        ensures
            final(self).key_view() == old(self).key_view(),
            final(self).nonce_view() == old(self).nonce_view(),
            match outcome {
                Ok(()) => {
                    &&& old(self).nonce_suffices()
                    &&& old(self).buffer_view().len() <= P_MAX
                    &&& final(self).buffer_view() == old(self).sealed(old(self).buffer_view())
                    &&& final(self).buffer_view().len() == old(self).buffer_view().len()
                        + TAG_SIZE
                },
                Err(LessonError::NonceTooShort) => {
                    &&& !old(self).nonce_suffices()
                    &&& final(self).buffer_view() == old(self).buffer_view()
                },
                Err(LessonError::Encryption) => {
                    &&& old(self).nonce_suffices()
                    &&& old(self).buffer_view().len() > P_MAX
                    &&& final(self).buffer_view() == old(self).buffer_view()
                },
                Err(_) => false,
            },
    {
        let short_nonce = self.nonce_bytes()?;
        match seal_in_place(&self.key, &short_nonce, &mut self.buffer.inner) {
            Ok(()) => Ok(()),
            Err(_) => Err(LessonError::Encryption),
        }
    }

    /// Opens what is sealed in the buffer: the buffer then holds the
    /// message alone. Where the nonce's text is too short, or the buffer
    /// was not sealed under this key and nonce, nothing changes.
    pub fn decrypt_in_place(&mut self) -> (outcome: Result<(), LessonError>)
        ensures
            final(self).key_view() == old(self).key_view(),
            final(self).nonce_view() == old(self).nonce_view(),
            match outcome {
                Ok(()) => {
                    &&& old(self).nonce_suffices()
                    &&& Some(final(self).buffer_view()) == old(self).opened(
                        old(self).buffer_view(),
                    )
                    &&& final(self).buffer_view().len() + TAG_SIZE == old(self).buffer_view().len()
                },
                Err(LessonError::NonceTooShort) => {
                    &&& !old(self).nonce_suffices()
                    &&& final(self).buffer_view() == old(self).buffer_view()
                },
                Err(LessonError::Decryption) => {
                    &&& old(self).nonce_suffices()
                    &&& old(self).opened(old(self).buffer_view()) is None
                    &&& final(self).buffer_view() == old(self).buffer_view()
                },
                Err(_) => false,
            },
            forall|message: Seq<u8>|
                old(self).nonce_suffices() && message.len() <= P_MAX && old(self).buffer_view()
                    == #[trigger] old(self).sealed(message) ==> outcome is Ok && final(self).buffer_view() == message,
    {
        let short_nonce = self.nonce_bytes()?;
        match open_in_place(&self.key, &short_nonce, &mut self.buffer.inner) {
            Ok(()) => Ok(()),
            Err(_) => Err(LessonError::Decryption),
        }
    }
}

} // verus!
