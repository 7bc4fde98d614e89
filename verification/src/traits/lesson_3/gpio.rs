//! General-purpose pins and the driver that sets their direction.

use crate::error::LessonError;
use crate::traits::lesson_3::peripheral::sealed::Sealed;
use crate::traits::lesson_3::peripheral::Peripheral;
use crate::traits::lesson_3::peripheral::PeripheralRef;
use std::marker::PhantomData;
use vstd::prelude::*;
use vstd::std_specs::convert::IntoSpec;

verus! {

/// A trait implemented by every pin instance
pub trait Pin: Peripheral<P = Self> + Sized + Send + 'static {
    /// The pin's number.
    spec fn number(&self) -> i32;

    fn pin(&self) -> (number: i32)
        ensures
            number == self.number(),
    ;

    /// A second handle to a pin is a handle to the pin of the same number.
    proof fn lemma_duplicate_keeps_number(&self)
        ensures
            self.duplicate().number() == self.number(),
    ;
}

/// A marker trait designating a pin which is capable of
/// operating as an input pin
pub trait InputPin: Pin + Into<AnyInputPin> {
    fn downgrade_input(self) -> (pin: AnyInputPin)
        ensures
            <Self as IntoSpec<AnyInputPin>>::obeys_into_spec() ==> pin == IntoSpec::<
                AnyInputPin,
            >::into_spec(self),
    {
        self.into()
    }
}

/// A marker trait designating a pin which is capable of
/// operating as an output pin
pub trait OutputPin: Pin + Into<AnyOutputPin> {
    fn downgrade_output(self) -> (pin: AnyOutputPin)
        ensures
            <Self as IntoSpec<AnyOutputPin>>::obeys_into_spec() ==> pin == IntoSpec::<
                AnyOutputPin,
            >::into_spec(self),
    {
        self.into()
    }
}

/// A marker trait designating a pin which is capable of
/// operating as an input and output pin
pub trait IOPin: InputPin + OutputPin + Into<AnyIOPin> {
    fn downgrade(self) -> (pin: AnyIOPin)
        ensures
            <Self as IntoSpec<AnyIOPin>>::obeys_into_spec() ==> pin == IntoSpec::<
                AnyIOPin,
            >::into_spec(self),
    {
        self.into()
    }
}

/// Generic Gpio input-output pin
pub struct AnyIOPin {
    pub pin: i32,
}

impl AnyIOPin {
    /// Care should be taken not to instantiate this Pin, if it is
    /// already instantiated and used elsewhere, or if it is not set
    /// already in the mode of operation which is being instantiated
    pub fn new(pin: i32) -> (any: Self)
        ensures
            any.pin == pin,
    {
        Self { pin }
    }
}

impl Sealed for AnyIOPin {

}

impl Peripheral for AnyIOPin {
    type P = AnyIOPin;

    open spec fn duplicate(&self) -> AnyIOPin {
        *self
    }

    fn clone_unchecked(&mut self) -> (duplicate: AnyIOPin) {
        AnyIOPin { pin: self.pin }
    }
}

impl Pin for AnyIOPin {
    open spec fn number(&self) -> i32 {
        self.pin
    }

    fn pin(&self) -> (number: i32) {
        self.pin
    }

    proof fn lemma_duplicate_keeps_number(&self) {
    }
}

impl InputPin for AnyIOPin {

}

impl OutputPin for AnyIOPin {

}

/// Generic Gpio input pin
pub struct AnyInputPin {
    pub pin: i32,
}

impl AnyInputPin {
    /// Care should be taken not to instantiate this Pin, if it is
    /// already instantiated and used elsewhere, or if it is not set
    /// already in the mode of operation which is being instantiated
    pub fn new(pin: i32) -> (any: Self)
        ensures
            any.pin == pin,
    {
        Self { pin }
    }
}

impl Sealed for AnyInputPin {

}

impl Peripheral for AnyInputPin {
    type P = AnyInputPin;

    open spec fn duplicate(&self) -> AnyInputPin {
        *self
    }

    fn clone_unchecked(&mut self) -> (duplicate: AnyInputPin) {
        AnyInputPin { pin: self.pin }
    }
}

impl Pin for AnyInputPin {
    open spec fn number(&self) -> i32 {
        self.pin
    }

    fn pin(&self) -> (number: i32) {
        self.pin
    }

    proof fn lemma_duplicate_keeps_number(&self) {
    }
}

impl InputPin for AnyInputPin {

}

impl From<AnyIOPin> for AnyInputPin {
    fn from(pin: AnyIOPin) -> (any: Self) {
        Self::new(pin.pin())
    }
}

impl vstd::std_specs::convert::FromSpecImpl<AnyIOPin> for AnyInputPin {
    open spec fn obeys_from_spec() -> bool {
        true
    }

    open spec fn from_spec(pin: AnyIOPin) -> Self {
        AnyInputPin { pin: pin.pin }
    }
}

/// Generic Gpio output pin
pub struct AnyOutputPin {
    pub pin: i32,
}

impl AnyOutputPin {
    /// Care should be taken not to instantiate this Pin, if it is
    /// already instantiated and used elsewhere, or if it is not set
    /// already in the mode of operation which is being instantiated
    pub fn new(pin: i32) -> (any: Self)
        ensures
            any.pin == pin,
    {
        Self { pin }
    }
}

impl Sealed for AnyOutputPin {

}

impl Peripheral for AnyOutputPin {
    type P = AnyOutputPin;

    open spec fn duplicate(&self) -> AnyOutputPin {
        *self
    }

    fn clone_unchecked(&mut self) -> (duplicate: AnyOutputPin) {
        AnyOutputPin { pin: self.pin }
    }
}

impl Pin for AnyOutputPin {
    open spec fn number(&self) -> i32 {
        self.pin
    }

    fn pin(&self) -> (number: i32) {
        self.pin
    }

    proof fn lemma_duplicate_keeps_number(&self) {
    }
}

impl OutputPin for AnyOutputPin {

}

impl From<AnyIOPin> for AnyOutputPin {
    fn from(pin: AnyIOPin) -> (any: Self) {
        Self::new(pin.pin())
    }
}

impl vstd::std_specs::convert::FromSpecImpl<AnyIOPin> for AnyOutputPin {
    open spec fn obeys_from_spec() -> bool {
        true
    }

    open spec fn from_spec(pin: AnyIOPin) -> Self {
        AnyOutputPin { pin: pin.pin }
    }
}

pub trait InputMode {
    const RTC: bool;
}

pub trait OutputMode {
    const RTC: bool;
}

pub struct Output;

pub struct Input;

pub struct InputOutput;

impl InputMode for Input {
    const RTC: bool = false;
}

impl InputMode for InputOutput {
    const RTC: bool = false;
}

impl OutputMode for Output {
    const RTC: bool = false;
}

impl OutputMode for InputOutput {
    const RTC: bool = false;
}

/// A driver for a GPIO pin.
///
/// The driver can set the pin as an input or an output pin, or both.
/// Depending on the current operating mode, different sets of functions are
/// available.
///
/// The mode-setting depends on the capabilities of the pin as well, i.e.
/// input-only pins cannot be set into output or input-output mode.
pub struct PinDriver<'d, T: Pin, MODE> {
    pin: PeripheralRef<'d, T>,
    _mode: PhantomData<MODE>,
}

impl<'d, T: InputPin> PinDriver<'d, T, Input> {
    /// Creates the driver for a pin in input state.
    pub fn input<P: Peripheral<P = T> + 'd>(pin: P) -> (driver: Result<Self, LessonError>)
        ensures
            driver matches Ok(d) && d.number() == pin.duplicate().number(),
    {
        let pin = pin.into_ref();
        Self { pin, _mode: PhantomData }.into_input()
    }
}

impl<'d, T: InputPin + OutputPin> PinDriver<'d, T, InputOutput> {
    /// Creates the driver for a pin in input-output state.
    pub fn input_output<P: Peripheral<P = T> + 'd>(pin: P) -> (driver: Result<Self, LessonError>)
        ensures
            driver matches Ok(d) && d.number() == pin.duplicate().number(),
    {
        let pin = pin.into_ref();
        Self { pin, _mode: PhantomData }.into_input_output()
    }
}

impl<'d, T: OutputPin> PinDriver<'d, T, Output> {
    /// Creates the driver for a pin in output state.
    pub fn output<P: Peripheral<P = T> + 'd>(pin: P) -> (driver: Result<Self, LessonError>)
        ensures
            driver matches Ok(d) && d.number() == pin.duplicate().number(),
    {
        let pin = pin.into_ref();
        Self { pin, _mode: PhantomData }.into_output()
    }
}

impl<'d, T: Pin, MODE> PinDriver<'d, T, MODE> {
    /// The number of the pin that is driven.
    pub closed spec fn number(&self) -> i32 {
        self.pin.peripheral().number()
    }

    /// Returns the pin number.
    pub fn pin(&self) -> (number: i32)
        ensures
            number == self.number(),
    {
        self.pin.pin()
    }

    /// Put the pin into input mode.
    pub fn into_input(self) -> (driver: Result<PinDriver<'d, T, Input>, LessonError>) where
        T: InputPin,

        ensures
            driver matches Ok(d) && d.number() == self.number(),
    {
        self.into_mode("input")
    }

    /// Put the pin into input + output mode.
    pub fn into_input_output(self) -> (driver: Result<
        PinDriver<'d, T, InputOutput>,
        LessonError,
    >) where T: InputPin + OutputPin
        ensures
            driver matches Ok(d) && d.number() == self.number(),
    {
        self.into_mode("input_output")
    }

    /// Put the pin into output mode.
    pub fn into_output(self) -> (driver: Result<PinDriver<'d, T, Output>, LessonError>) where
        T: OutputPin,

        ensures
            driver matches Ok(d) && d.number() == self.number(),
    {
        self.into_mode("output")
    }

    /// A driver of the same pin in another mode.
    fn into_mode<M>(self, mode: &str) -> (driver: Result<PinDriver<'d, T, M>, LessonError>) where
        T: Pin,

        ensures
            driver matches Ok(d) && d.number() == self.number(),
    {
        let mut this = self;
        proof {
            this.pin.peripheral().lemma_duplicate_keeps_number();
        }
        let pin = this.pin.clone_unchecked();
        Ok(PinDriver { pin, _mode: PhantomData })
    }

    /// Toggle pin output
    pub fn toggle(&mut self) -> (outcome: Result<(), LessonError>) where MODE: OutputMode
        ensures
            outcome == Ok::<(), LessonError>(()),
            final(self).number() == old(self).number(),
    {
        Ok(())
    }
}

/// The first pin of the chip, good for input and output.
pub struct Gpio0;

impl Gpio0 {
    /// Care should be taken not to instantiate this peripheral instance, if
    /// it is already instantiated and used elsewhere
    pub fn new() -> Self {
        Gpio0
    }
}

impl Sealed for Gpio0 {

}

impl Peripheral for Gpio0 {
    type P = Gpio0;

    open spec fn duplicate(&self) -> Gpio0 {
        Gpio0
    }

    fn clone_unchecked(&mut self) -> (duplicate: Gpio0) {
        Gpio0
    }
}

impl Pin for Gpio0 {
    open spec fn number(&self) -> i32 {
        0
    }

    fn pin(&self) -> (number: i32) {
        0
    }

    proof fn lemma_duplicate_keeps_number(&self) {
    }
}

impl InputPin for Gpio0 {

}

impl OutputPin for Gpio0 {

}

impl IOPin for Gpio0 {

}

impl From<Gpio0> for AnyInputPin {
    fn from(pin: Gpio0) -> (any: Self) {
        Self::new(pin.pin())
    }
}

impl vstd::std_specs::convert::FromSpecImpl<Gpio0> for AnyInputPin {
    open spec fn obeys_from_spec() -> bool {
        true
    }

    open spec fn from_spec(pin: Gpio0) -> Self {
        AnyInputPin { pin: 0 }
    }
}

impl From<Gpio0> for AnyOutputPin {
    fn from(pin: Gpio0) -> (any: Self) {
        Self::new(pin.pin())
    }
}

impl vstd::std_specs::convert::FromSpecImpl<Gpio0> for AnyOutputPin {
    open spec fn obeys_from_spec() -> bool {
        true
    }

    open spec fn from_spec(pin: Gpio0) -> Self {
        AnyOutputPin { pin: 0 }
    }
}

impl From<Gpio0> for AnyIOPin {
    fn from(pin: Gpio0) -> (any: Self) {
        Self::new(pin.pin())
    }
}

impl vstd::std_specs::convert::FromSpecImpl<Gpio0> for AnyIOPin {
    open spec fn obeys_from_spec() -> bool {
        true
    }

    open spec fn from_spec(pin: Gpio0) -> Self {
        AnyIOPin { pin: 0 }
    }
}

/// A pin of the chip that can only be read.
pub struct Gpio34;

impl Gpio34 {
    /// Care should be taken not to instantiate this peripheral instance, if
    /// it is already instantiated and used elsewhere
    pub fn new() -> Self {
        Gpio34
    }
}

impl Sealed for Gpio34 {

}

impl Peripheral for Gpio34 {
    type P = Gpio34;

    open spec fn duplicate(&self) -> Gpio34 {
        Gpio34
    }

    fn clone_unchecked(&mut self) -> (duplicate: Gpio34) {
        Gpio34
    }
}

impl Pin for Gpio34 {
    open spec fn number(&self) -> i32 {
        34
    }

    fn pin(&self) -> (number: i32) {
        34
    }

    proof fn lemma_duplicate_keeps_number(&self) {
    }
}

impl InputPin for Gpio34 {

}

impl From<Gpio34> for AnyInputPin {
    fn from(pin: Gpio34) -> (any: Self) {
        Self::new(pin.pin())
    }
}

impl vstd::std_specs::convert::FromSpecImpl<Gpio34> for AnyInputPin {
    open spec fn obeys_from_spec() -> bool {
        true
    }

    open spec fn from_spec(pin: Gpio34) -> Self {
        AnyInputPin { pin: 34 }
    }
}

} // verus!
