//! A message that is sealed and opened again.

use crate::challenge1::get_encrypter;
use crate::challenge1::EncrypterState;
use crate::error::LessonError;
use vstd::prelude::*;
use vstd::utf8::encode_utf8;
use vstd::utf8::is_ascii_chars;
use vstd::utf8::is_ascii_chars_encode_utf8;

verus! {

/// Seals a short message under a nonce derived from a password, and opens
/// it again. Sealed, the buffer differs from the message; opened, it holds
/// the message as it was. Neither step can fail.
pub fn run() -> (outcome: Result<(), LessonError>)
    ensures
        outcome == Ok::<(), LessonError>(()),
{
    let mut enc = get_encrypter(EncrypterState::new("password", "salt"), "plaintext message");
    let ghost message = encode_utf8("plaintext message"@);
    proof {
        reveal_strlit("plaintext message");
        assert(is_ascii_chars("plaintext message"@));
        is_ascii_chars_encode_utf8("plaintext message"@);
    }
    enc.encrypt_in_place()?;
    assert(enc.buffer_view() != message);
    assert(enc.buffer_view() == enc.sealed(message));
    enc.decrypt_in_place()?;
    assert(enc.buffer_view() == message);
    Ok(())
}

} // verus!
