//! Static and dynamic dispatch: a greeting that any named thing can give,
//! called through a type parameter or through a trait object.

use vstd::prelude::*;
use vstd::string::StringExecFns;
use vstd::utf8::encode_utf8;

verus! {

/// The greeting for `name`.
pub open spec fn hei_line(name: Seq<char>) -> Seq<char> {
    "hei "@ + name
}

/// What is said of `name` when the odd method was called.
pub open spec fn weird_line(name: Seq<char>) -> Seq<char> {
    "you called wierd "@ + name
}

/// Say hello in Norwegian.
pub trait Hei {
    /// The name that is greeted.
    spec fn name(&self) -> Seq<char>;

    /// The line that greets `self`.
    fn hei(&self) -> (line: String)
        ensures
            line@ == hei_line(self.name()),
    ;

    /// The line that owns up to the odd call.
    fn weird(&self) -> (line: String)
        ensures
            line@ == weird_line(self.name()),
    ;

    /// Hands `self` back. Only values of a known size can be passed, so
    /// this method cannot be called on a trait object.
    fn need_sized(self) -> (same: Self) where Self: Sized
        ensures
            same == self,
    ;
}

impl Hei for &str {
    open spec fn name(&self) -> Seq<char> {
        self@
    }

    fn hei(&self) -> (line: String) {
        let mut line = String::from_str("hei ");
        line.append(self);
        line
    }

    fn weird(&self) -> (line: String) {
        let mut line = String::from_str("you called wierd ");
        line.append(self);
        line
    }

    fn need_sized(self) -> (same: Self) {
        self
    }
}

impl Hei for String {
    open spec fn name(&self) -> Seq<char> {
        self@
    }

    fn hei(&self) -> (line: String) {
        let mut line = String::from_str("hei ");
        line.append(self.as_str());
        line
    }

    fn weird(&self) -> (line: String) {
        let mut line = String::from_str("you called wierd ");
        line.append(self.as_str());
        line
    }

    fn need_sized(self) -> (same: Self) {
        self
    }
}

/// The greeting of whatever stands behind the trait object.
pub fn say_hei(s: &dyn Hei) -> (line: String)
    ensures
        line@ == hei_line(s.name()),
{
    s.hei()
}

/// The length of a text in bytes of UTF-8.
pub open spec fn byte_len(text: Seq<char>) -> nat {
    encode_utf8(text).len()
}

/// The length of `s` in bytes.
pub fn strlen(s: &str) -> (len: usize)
    ensures
        len == byte_len(s@),
{
    s.as_bytes().len()
}

/// The length of `s` in bytes.
pub fn strlen2(s: String) -> (len: usize)
    ensures
        len == byte_len(s@),
{
    s.as_str().as_bytes().len()
}

/// The length in bytes of a boxed text.
pub fn strlen_dyn2(s: Box<&str>) -> (len: usize)
    ensures
        len == byte_len(s@),
{
    (*s).as_bytes().len()
}

/// The length in bytes of a borrowed text.
pub fn strlen_dyn(s: &&str) -> (len: usize)
    ensures
        len == byte_len(s@),
{
    (*s).as_bytes().len()
}

} // verus!
