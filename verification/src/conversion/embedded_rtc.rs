//! The weekday as a real-time clock keeps it: one bit for each day.

use crate::error::LessonError;
use vstd::prelude::*;
use vstd::string::StrSliceExecFns;
use vstd::string::StringExecFns;

verus! {

#[derive(Debug, Clone, Copy, PartialEq, Eq, Structural)]
pub enum Weekday {
    Sunday,
    Monday,
    Tuesday,
    Wednesday,
    Thursday,
    Friday,
    Saturday,
}

/// The weekday that a clock register stands for. A register that holds no
/// single day's bit reads as Sunday.
pub open spec fn weekday_of(day: u8) -> Weekday {
    match day {
        1 => Weekday::Sunday,
        2 => Weekday::Monday,
        4 => Weekday::Tuesday,
        8 => Weekday::Wednesday,
        16 => Weekday::Thursday,
        32 => Weekday::Friday,
        64 => Weekday::Saturday,
        _ => Weekday::Sunday,
    }
}

impl Weekday {
    /// The day's bit.
    pub open spec fn bit(self) -> u8 {
        match self {
            Weekday::Sunday => 1,
            Weekday::Monday => 2,
            Weekday::Tuesday => 4,
            Weekday::Wednesday => 8,
            Weekday::Thursday => 16,
            Weekday::Friday => 32,
            Weekday::Saturday => 64,
        }
    }

    /// The day's English name.
    pub open spec fn name(self) -> Seq<char> {
        match self {
            Weekday::Sunday => "Sunday"@,
            Weekday::Monday => "Monday"@,
            Weekday::Tuesday => "Tuesday"@,
            Weekday::Wednesday => "Wednesday"@,
            Weekday::Thursday => "Thursday"@,
            Weekday::Friday => "Friday"@,
            Weekday::Saturday => "Saturday"@,
        }
    }

    /// Every name is long enough to be shortened.
    pub proof fn lemma_name_len(self)
        ensures
            self.name().len() >= 6,
    {
        reveal_strlit("Sunday");
        reveal_strlit("Monday");
        reveal_strlit("Tuesday");
        reveal_strlit("Wednesday");
        reveal_strlit("Thursday");
        reveal_strlit("Friday");
        reveal_strlit("Saturday");
    }

    /// The day's bit, as the clock register holds it.
    pub fn value(&self) -> (bit: u8)
        ensures
            bit == self.bit(),
    {
        match self {
            Weekday::Sunday => 1,
            Weekday::Monday => 2,
            Weekday::Tuesday => 4,
            Weekday::Wednesday => 8,
            Weekday::Thursday => 16,
            Weekday::Friday => 32,
            Weekday::Saturday => 64,
        }
    }

    /// The day's English name.
    pub fn to_s(&self) -> (name: String)
        ensures
            name@ == self.name(),
    {
        match self {
            Weekday::Sunday => String::from_str("Sunday"),
            Weekday::Monday => String::from_str("Monday"),
            Weekday::Tuesday => String::from_str("Tuesday"),
            Weekday::Wednesday => String::from_str("Wednesday"),
            Weekday::Thursday => String::from_str("Thursday"),
            Weekday::Friday => String::from_str("Friday"),
            Weekday::Saturday => String::from_str("Saturday"),
        }
    }

    /// The first three letters of the day's name.
    pub fn to_short(&self) -> (short: Result<String, LessonError>)
        ensures
            short matches Ok(letters) && letters@ == self.name().take(3),
    {
        let day = self.to_s();
        proof {
            self.lemma_name_len();
        }
        let result = String::from_str(day.as_str().substring_char(0, 3));
        Ok(result)
    }
}

impl From<u8> for Weekday {
    fn from(day: u8) -> (weekday: Self) {
        match day {
            1 => Weekday::Sunday,
            2 => Weekday::Monday,
            4 => Weekday::Tuesday,
            8 => Weekday::Wednesday,
            16 => Weekday::Thursday,
            32 => Weekday::Friday,
            64 => Weekday::Saturday,
            _ => Weekday::Sunday,
        }
    }
}

impl vstd::std_specs::convert::FromSpecImpl<u8> for Weekday {
    open spec fn obeys_from_spec() -> bool {
        true
    }

    open spec fn from_spec(day: u8) -> Weekday {
        weekday_of(day)
    }
}

/// Reads the weekday out of a register that holds Tuesday's bit, and looks
/// at it in each of the three ways.
pub fn lesson_3() -> (outcome: Result<(), LessonError>)
    ensures
        outcome == Ok::<(), LessonError>(()),
{
    let weekday_num: u8 = 4;
    let weekday = Weekday::from(weekday_num);
    let weekday_value = weekday.value();
    assert(weekday_value == 4);
    let name = weekday.to_s();
    assert(name@ == "Tuesday"@);
    let short = weekday.to_short()?;
    proof {
        reveal_strlit("Tuesday");
        reveal_strlit("Tue");
    }
    assert(short@ =~= "Tue"@);
    Ok(())
}

/// A day's bit is read back as that day.
pub proof fn lemma_bit_reads_back(weekday: Weekday)
    ensures
        weekday_of(weekday.bit()) == weekday,
{
}

/// Reading a register gives the day of its bit exactly where the register
/// holds a single day's bit; every other register reads as Sunday.
pub proof fn lemma_register_reads(day: u8)
    ensures
        weekday_of(day).bit() == day || weekday_of(day) == Weekday::Sunday,
{
}

} // verus!
