//! Conversions between types: widening an integer, and reading a weekday
//! out of a bit mask.

use crate::error::LessonError;
use vstd::prelude::*;

pub mod embedded_rtc;

verus! {

/// Runs the three lessons in turn. None of them can fail.
pub fn runner() -> (outcome: Result<(), LessonError>)
    ensures
        outcome == Ok::<(), LessonError>(()),
{
    lesson_1()?;
    lesson_2()?;
    embedded_rtc::lesson_3()?;
    Ok(())
}

/// Widens a `u8` to a `u16` in the two ways that std offers: both give the
/// same number, and narrowing it again gives the `u8` back.
pub fn lesson_1() -> (outcome: Result<(), LessonError>)
    ensures
        outcome == Ok::<(), LessonError>(()),
{
    let value: u8 = 10;
    let resp: u16 = value.into();
    assert(resp as u8 == value);
    let resp2: u16 = u16::from(value);
    assert(resp == resp2);
    Ok(())
}

/// A `u32` has no lossless conversion into a `u16`, so there is nothing to
/// convert here.
pub fn lesson_2() -> (outcome: Result<(), LessonError>)
    ensures
        outcome == Ok::<(), LessonError>(()),
{
    let _value: u32 = 10;
    Ok(())
}

} // verus!
