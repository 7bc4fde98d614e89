//! Traits: bounds on parameters, associated types, forwarding impls, and
//! larger examples in the lessons below.

use crate::error::LessonError;
use vstd::prelude::*;
use vstd::string::StringExecFns;

pub mod lesson10;
pub mod lesson7;
pub mod lesson8;
pub mod lesson_3;

verus! {

/// The character of a decimal digit.
pub open spec fn digit_char(digit: nat) -> char {
    "0123456789"@[digit as int]
}

/// A number in decimal, without sign and without leading zeros.
pub open spec fn decimal_text(n: nat) -> Seq<char>
    decreases n,
{
    if n < 10 {
        seq![digit_char(n)]
    } else {
        decimal_text(n / 10).push(digit_char(n % 10))
    }
}

/// The text that a device with the number `id` shows.
pub open spec fn device_text(id: u8) -> Seq<char> {
    "Device ("@ + decimal_text(id as nat) + ")"@
}

/// One decimal digit as a text.
fn digit(d: u8) -> (text: &'static str)
    requires
        d < 10,
    ensures
        text@ == seq![digit_char(d as nat)],
{
    proof {
        reveal_strlit("0123456789");
        reveal_strlit("0");
        reveal_strlit("1");
        reveal_strlit("2");
        reveal_strlit("3");
        reveal_strlit("4");
        reveal_strlit("5");
        reveal_strlit("6");
        reveal_strlit("7");
        reveal_strlit("8");
        reveal_strlit("9");
    }
    let text = match d {
        0 => "0",
        1 => "1",
        2 => "2",
        3 => "3",
        4 => "4",
        5 => "5",
        6 => "6",
        7 => "7",
        8 => "8",
        _ => "9",
    };
    assert(text@ =~= seq![digit_char(d as nat)]);
    text
}

/// A byte in decimal.
pub fn decimal(n: u8) -> (text: String)
    ensures
        text@ == decimal_text(n as nat),
{
    let mut text = String::new();
    if n >= 100 {
        text.append(digit(n / 100));
    }
    if n >= 10 {
        text.append(digit((n / 10) % 10));
    }
    text.append(digit(n % 10));
    proof {
        let ones = seq![digit_char((n % 10) as nat)];
        let tens = seq![digit_char(((n / 10) % 10) as nat)];
        let hundreds = seq![digit_char((n / 100) as nat)];
        reveal_with_fuel(decimal_text, 3);
        if n >= 100 {
            assert(text@ =~= Seq::<char>::empty() + hundreds + tens + ones);
            assert(decimal_text(n as nat) =~= hundreds + tens + ones);
        } else if n >= 10 {
            assert(text@ =~= Seq::<char>::empty() + tens + ones);
            assert(decimal_text(n as nat) =~= tens + ones);
        } else {
            assert(text@ =~= Seq::<char>::empty() + ones);
        }
    }
    text
}

/// A device that is known by a number.
#[derive(Debug)]
pub struct Device(pub u8);

impl Device {
    pub fn new(id: u8) -> (device: Self)
        ensures
            device.0 == id,
    {
        Self(id)
    }

    /// What the device shows of itself.
    pub fn to_text(&self) -> (text: String)
        ensures
            text@ == device_text(self.0),
    {
        let mut text = String::from_str("Device (");
        text.append(decimal(self.0).as_str());
        text.append(")");
        text
    }
}

/// An error that stands for any other: it keeps what the other one says.
#[derive(Debug)]
pub struct BlanketError {
    inner: String,
}

impl View for BlanketError {
    type V = Seq<char>;

    closed spec fn view(&self) -> Seq<char> {
        self.inner@
    }
}

impl BlanketError {
    /// An error that says what `error` says.
    pub fn new(error: String) -> (blanket: Self)
        ensures
            blanket@ == error@,
    {
        Self { inner: error }
    }

    /// Gives the message back.
    pub fn into_inner(self) -> (inner: String)
        ensures
            inner@ == self@,
    {
        self.inner
    }

    /// What the error says: its message.
    pub fn to_text(&self) -> (text: String)
        ensures
            text@ == self@,
    {
        self.inner.clone()
    }
}

/// A real-time clock, with the error that its operations can end in.
pub trait RTC {
    type Error: ErrorType;
}

pub trait ErrorType {
    /// Error type
    type Error;
}

/// Whatever is an `ErrorType` stays one behind a mutable reference.
impl<T: ErrorType> ErrorType for &mut T {
    type Error = T::Error;
}

impl ErrorType for BlanketError {
    type Error = Self;
}

/// A clock chip that is known by a number.
pub struct RTCDevice(pub u8);

impl RTC for RTCDevice {
    type Error = BlanketError;
}

impl RTCDevice {
    /// What the chip shows of itself: its number.
    pub fn to_text(&self) -> (text: String)
        ensures
            text@ == decimal_text(self.0 as nat),
    {
        decimal(self.0)
    }
}

impl ErrorType for RTCDevice {
    type Error = BlanketError;
}

/// Runs the lessons in turn, and hands on what the closures of the seventh
/// lesson returned.
pub fn runner() -> (outcome: Result<(u8, u8), LessonError>)
    ensures
        outcome == Ok::<(u8, u8), LessonError>((100u8, 10u8)),
{
    lesson_2();
    lesson_3::run()?;
    let responses = lesson7::run();
    lesson10::run();
    Ok(responses)
}

/// Takes a device of any type that names its error. The message is for the
/// caller's log; nothing is done with the device.
pub fn test_mut_t<T>(device: T, message: &str) where T: ErrorType {
}

/// Hands a device over by value, and then another one by mutable reference:
/// the bound is met both times.
pub fn lesson_2() {
    let device = RTCDevice(1);
    test_mut_t::<RTCDevice>(device, "This is a standard use of `T: Trait`");
    let mut device = RTCDevice(1);
    test_mut_t::<&mut RTCDevice>(&mut device, "Here we are using `&mut T: Trait`");
}

} // verus!
