//! The ways in which an operation of this crate can fail.

use vstd::prelude::*;

verus! {

#[derive(Debug, Clone, Copy, PartialEq, Eq, Structural)]
pub enum LessonError {
    /// A nonce held fewer bytes than the cipher takes from it.
    NonceTooShort,
    /// A key could not be derived into a buffer of the given length.
    InvalidKeyLength,
    /// A cipher refused to seal a buffer.
    Encryption,
    /// A buffer was not sealed under the key and the nonce it was opened with.
    Decryption,
}

} // verus!
