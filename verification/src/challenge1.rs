//! A key derived from a password, and a message sealed and opened in place.

use crate::challenge1::aes::AesEncrypter;
use crate::challenge1::encrypter::Encryptable;
use crate::challenge1::encrypter::Encrypter;
use crate::error::LessonError;
use vstd::prelude::*;
use vstd::utf8::encode_utf8;
use vstd::utf8::is_ascii_chars;
use vstd::utf8::is_ascii_chars_encode_utf8;

pub mod aes;
pub mod encrypter;
pub mod example1;

verus! {

/// The number of rounds of the key derivation.
pub const PBKDF_ROUNDS: u32 = 600_000;

/// The length of a derived key in bytes.
pub const KEY_BUFF_SIZE: usize = 20;

/// The key of `len` bytes that PBKDF2 with HMAC-SHA512 derives from a
/// password and a salt in the given number of rounds.
pub uninterp spec fn pbkdf2_hmac_sha512(
    password: Seq<u8>,
    salt: Seq<u8>,
    rounds: u32,
    len: nat,
) -> Seq<u8>;

/// The lower-case hex digit of a number below sixteen.
pub open spec fn hex_digit(nibble: u8) -> char {
    "0123456789abcdef"@[nibble as int]
}

/// The lower-case hex encoding of `bytes`: two digits for each byte, the
/// high half first.
pub open spec fn hex_encoded(bytes: Seq<u8>) -> Seq<char> {
    Seq::new(
        2 * bytes.len(),
        |i: int|
            if i % 2 == 0 {
                hex_digit(bytes[i / 2] / 16)
            } else {
                hex_digit(bytes[i / 2] % 16)
            },
    )
}

/// The error of `digest` for a key of a length that a keyed hash does not
/// take.
#[verifier::external_type_specification]
#[verifier::external_body]
pub struct ExInvalidLength(hmac::digest::InvalidLength);

/// `pbkdf2::pbkdf2` with `Hmac<Sha512>` as its pseudo-random function. The
/// buffer is filled with the derived key, which depends on the password, the
/// salt, the rounds and the buffer's length alone. The call cannot fail:
/// its one source of failure is the set-up of the HMAC, which takes a key of
/// any length.
#[verifier::external_body]
fn pbkdf2_hmac_sha512_fill(
    password: &[u8],
    salt: &[u8],
    rounds: u32,
    buf: &mut [u8; KEY_BUFF_SIZE],
) -> (outcome: Result<(), hmac::digest::InvalidLength>)
    ensures
        outcome is Ok,
        final(buf)@ == pbkdf2_hmac_sha512(password@, salt@, rounds, KEY_BUFF_SIZE as nat),
{
    pbkdf2::pbkdf2::<hmac::Hmac<sha2::Sha512>>(password, salt, rounds, buf)
}

/// `hex::encode`: two lower-case hex digits for each byte.
#[verifier::external_body]
fn hex_encode(data: &[u8; KEY_BUFF_SIZE]) -> (text: String)
    ensures
        text@ == hex_encoded(data@),
{
    hex::encode(data)
}

/// A password and the salt that goes with it.
pub struct EncrypterState<'a>(pub &'a str, pub &'a str);

impl<'a> EncrypterState<'a> {
    pub fn new(password: &'a str, salt: &'a str) -> (state: Self)
        ensures
            state.0@ == password@,
            state.1@ == salt@,
    {
        Self(password, salt)
    }
}

/// The key that is derived from a password and a salt.
pub open spec fn derived_key(password: Seq<char>, salt: Seq<char>) -> Seq<u8> {
    pbkdf2_hmac_sha512(
        encode_utf8(password),
        encode_utf8(salt),
        PBKDF_ROUNDS,
        KEY_BUFF_SIZE as nat,
    )
}

/// Fills the buffer with the key derived from the password and the salt.
pub fn process_pbkdf_key(
    buf_ptr: &mut Box<[u8; KEY_BUFF_SIZE]>,
    password: &str,
    salt: &str,
) -> (outcome: Result<(), LessonError>)
    ensures
        outcome == Ok::<(), LessonError>(()),
        final(buf_ptr)@ == derived_key(password@, salt@),
{
    let derived = pbkdf2_hmac_sha512_fill(
        password.as_bytes(),
        salt.as_bytes(),
        PBKDF_ROUNDS,
        &mut **buf_ptr,
    );
    match derived {
        Ok(()) => Ok(()),
        Err(_) => Err(LessonError::InvalidKeyLength),
    }
}

/// An encrypter for `plaintext` under a fresh random key. Its nonce is the
/// hex encoding of the key derived from the state's password and salt.
pub fn get_encrypter<'a>(state: EncrypterState<'a>, plaintext: &'a str) -> (encrypter:
    AesEncrypter<'a>)
    ensures
        encrypter.nonce_view() == hex_encoded(derived_key(state.0@, state.1@)),
        encrypter.nonce_suffices(),
        encrypter.buffer_view() == encode_utf8(plaintext@),
{
    let buf = [0u8; KEY_BUFF_SIZE];
    let mut buf_boxed = Box::new(buf);
    let mut encrypter = Encrypter::<()>::new(&mut buf_boxed);
    let pbkdf_key = encrypter.pbkdf_key(state.0, state.1);
    let pbkdf_key_hex = hex_encode(&pbkdf_key);
    proof {
        lemma_hex_encoded_is_ascii(pbkdf_key@);
        is_ascii_chars_encode_utf8(pbkdf_key_hex@);
    }
    AesEncrypter::new(pbkdf_key_hex, plaintext)
}

/// A hex encoding is twice as long as what it encodes, and all of it is
/// ASCII.
pub proof fn lemma_hex_encoded_is_ascii(bytes: Seq<u8>)
    ensures
        hex_encoded(bytes).len() == 2 * bytes.len(),
        is_ascii_chars(hex_encoded(bytes)),
{
    reveal_strlit("0123456789abcdef");
    assert forall|i: int| 0 <= i < hex_encoded(bytes).len() implies '\0' <= #[trigger] hex_encoded(
        bytes,
    )[i] <= '\u{7f}' by {
        let nibble = if i % 2 == 0 {
            bytes[i / 2] / 16
        } else {
            bytes[i / 2] % 16
        };
        assert(0 <= nibble < 16);
        assert(hex_encoded(bytes)[i] == hex_digit(nibble));
    }
}

/// Runs the example: a message is sealed and opened again.
pub fn runner() -> (outcome: Result<(), LessonError>)
    ensures
        outcome == Ok::<(), LessonError>(()),
{
    example1::run()?;
    Ok(())
}

} // verus!
