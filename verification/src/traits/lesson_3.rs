//! Peripherals of a microcontroller as values that exist once: a pin is
//! handed to a driver, and the driver's type says what the pin is used for.

use crate::error::LessonError;
use crate::traits::lesson_3::gpio::Gpio0;
use crate::traits::lesson_3::gpio::IOPin;
use crate::traits::lesson_3::gpio::PinDriver;
use vstd::prelude::*;

pub mod gpio;
pub mod peripheral;

verus! {

/// Takes the first pin, gives up what is special about it, and drives it as
/// an input and output: the driver still speaks of pin 0, and toggling it
/// succeeds.
pub fn run() -> (outcome: Result<(), LessonError>)
    ensures
        outcome == Ok::<(), LessonError>(()),
{
    let gpio0 = Gpio0::new();
    let io_pin = gpio0.downgrade();
    let mut pin_driver = PinDriver::input_output(io_pin)?;
    assert(pin_driver.number() == 0);
    pin_driver.toggle()?;
    Ok(())
}

} // verus!
