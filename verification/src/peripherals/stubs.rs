//! Stub implementations of the peripheral traits, for when the peripherals
//! are not used: reads report disabled pins and failures, writes change
//! nothing.

use vstd::prelude::*;
use core::sync::atomic::AtomicBool;
use crate::isa::Word;
use super::PeripheralSet;
use super::adc::{Adc, AdcPin, AdcState, AdcReadError};
use super::pwm::{Pwm, PwmPin, PwmState, PwmSetPeriodError, PwmSetDutyError};
use super::timers::{Timers, TimerId, TimerArr, TimerMode, TimerState};
use super::clock::Clock;
use super::input::{Input, InputError};
use super::output::{Output, OutputError};

verus! {

/// A set of stub peripherals.
pub type PeripheralsStub<'s> = PeripheralSet<
    's,
    GpioStub,
    AdcStub,
    PwmStub,
    TimersStub,
    ClockStub,
    InputStub,
    OutputStub,
>;

/// A GPIO peripheral with no pins in use.
#[derive(Debug, Clone, Copy, PartialEq, Eq, PartialOrd, Ord, Hash, Default)]
pub struct GpioStub;

/// An ADC whose pins are all disabled.
#[derive(Debug, Clone, Copy, PartialEq, Eq, PartialOrd, Ord, Hash, Default)]
pub struct AdcStub;

impl Adc for AdcStub {
    open spec fn spec_state(&self, pin: AdcPin) -> AdcState {
        AdcState::Disabled
    }

    open spec fn reads(&self, pin: AdcPin, r: Result<u8, AdcReadError>) -> bool {
        r == Err::<u8, AdcReadError>(AdcReadError((pin, AdcState::Disabled)))
    }

    open spec fn adc_state_set(&self, pin: AdcPin, state: AdcState, after: Self, r: Result<(), ()>) -> bool {
        after == *self && r == Err::<(), ()>(())
    }

    fn set_state(&mut self, _pin: AdcPin, _state: AdcState) -> (r: Result<(), ()>)
        ensures
            r is Err,
    {
        Err(())
    }

    fn get_state(&self, _pin: AdcPin) -> (r: AdcState) {
        AdcState::Disabled
    }

    fn read(&self, pin: AdcPin) -> (r: Result<u8, AdcReadError>) {
        Err(AdcReadError((pin, AdcState::Disabled)))
    }
}

/// A PWM whose pins are all disabled, at a duty cycle of zero.
#[derive(Debug, Clone, Copy, PartialEq, Eq, PartialOrd, Ord, Hash, Default)]
pub struct PwmStub;

impl Pwm for PwmStub {
    open spec fn spec_state(&self, pin: PwmPin) -> PwmState {
        PwmState::Disabled
    }

    open spec fn spec_duty_cycle(&self, pin: PwmPin) -> u8 {
        0
    }

    open spec fn pwm_state_set(&self, pin: PwmPin, state: PwmState, after: Self, r: Result<(), PwmSetPeriodError>) -> bool {
        after == *self && r == Ok::<(), PwmSetPeriodError>(())
    }

    open spec fn pin_reads(&self, pin: PwmPin, level: bool) -> bool {
        !level
    }

    open spec fn duty_cycle_set(&self, pin: PwmPin, duty: u8, after: Self, r: Result<(), PwmSetDutyError>) -> bool {
        after == *self && r == Ok::<(), PwmSetDutyError>(())
    }

    fn set_state(&mut self, _pin: PwmPin, _state: PwmState) -> (r: Result<(), PwmSetPeriodError>)
        ensures
            r is Ok,
    {
        Ok(())
    }

    fn get_state(&self, _pin: PwmPin) -> (r: PwmState) {
        PwmState::Disabled
    }

    fn get_pin(&self, _pin: PwmPin) -> (r: bool)
        ensures
            !r,
    {
        false
    }

    fn set_duty_cycle(&mut self, _pin: PwmPin, _duty: u8) -> (r: Result<(), PwmSetDutyError>)
        ensures
            r is Ok,
    {
        Ok(())
    }

    fn get_duty_cycle(&self, _pin: PwmPin) -> (r: u8) {
        0
    }
}

/// Timers that stay disabled, in single-shot mode.
#[derive(Debug, Clone, Copy, PartialEq, Eq, PartialOrd, Ord, Hash, Default)]
pub struct TimersStub;

impl<'a> Timers<'a> for TimersStub {
    open spec fn spec_mode(&self, timer: TimerId) -> TimerMode {
        TimerMode::SingleShot
    }

    open spec fn state_reads(&self, timer: TimerId, s: TimerState) -> bool {
        s == TimerState::Disabled
    }

    open spec fn mode_set(&self, timer: TimerId, mode: TimerMode, after: Self) -> bool {
        after == *self
    }

    open spec fn timer_state_set(&self, timer: TimerId, state: TimerState, after: Self) -> bool {
        after == *self
    }

    open spec fn interrupt_flags_registered(&self, flags: &'a TimerArr<AtomicBool>, after: Self) -> bool {
        after == *self
    }

    open spec fn interrupt_reads(&self, timer: TimerId, occurred: bool) -> bool {
        !occurred
    }

    open spec fn interrupt_flag_reset(&self, timer: TimerId, after: Self) -> bool {
        after == *self
    }

    fn set_mode(&mut self, _timer: TimerId, _mode: TimerMode) {
    }

    fn get_mode(&self, _timer: TimerId) -> (r: TimerMode) {
        TimerMode::SingleShot
    }

    fn set_state(&mut self, _timer: TimerId, _state: TimerState) {
    }

    fn get_state(&self, _timer: TimerId) -> (r: TimerState) {
        TimerState::Disabled
    }

    fn register_interrupt_flags(&mut self, _flags: &'a TimerArr<AtomicBool>) {
    }

    fn interrupt_occurred(&self, _timer: TimerId) -> (r: bool)
        ensures
            !r,
    {
        false
    }

    fn reset_interrupt_flag(&mut self, _timer: TimerId) {
    }
}

/// A clock that always reads zero.
#[derive(Debug, Clone, Copy, PartialEq, Eq, PartialOrd, Ord, Hash, Default)]
pub struct ClockStub;

impl Clock for ClockStub {
    open spec fn milliseconds_set(&self, ms: Word, after: Self) -> bool {
        after == *self
    }

    fn get_milliseconds(&self) -> (r: Word)
        ensures
            r == 0,
    {
        0
    }

    fn set_milliseconds(&mut self, _ms: Word) {
    }
}

/// An input device that never has data.
#[derive(Debug, Clone, Copy, PartialEq, Eq, PartialOrd, Ord, Hash, Default)]
pub struct InputStub;

impl<'a> Input<'a> for InputStub {
    open spec fn input_flag_registered(&self, flag: &'a AtomicBool, after: Self) -> bool {
        after == *self
    }

    open spec fn input_interrupt_reads(&self, occurred: bool) -> bool {
        !occurred
    }

    open spec fn interrupt_enable_set(&self, bit: bool, after: Self) -> bool {
        after == *self
    }

    open spec fn input_interrupts_report(&self, enabled: bool) -> bool {
        !enabled
    }

    fn read_data(&self) -> (r: Result<u8, InputError>)
        ensures
            r == Err::<u8, InputError>(InputError),
    {
        Err(InputError)
    }

    fn current_data_unread(&self) -> (r: bool)
        ensures
            !r,
    {
        false
    }

    fn register_interrupt_flag(&mut self, _flag: &'a AtomicBool) {
    }

    fn interrupt_occurred(&self) -> (r: bool)
        ensures
            !r,
    {
        false
    }

    fn set_interrupt_enable_bit(&mut self, _bit: bool) {
    }

    fn interrupts_enabled(&self) -> (r: bool)
        ensures
            !r,
    {
        false
    }
}

/// An output device that accepts and drops every character.
#[derive(Debug, Clone, Copy, PartialEq, Eq, PartialOrd, Ord, Hash, Default)]
pub struct OutputStub;

impl<'a> Output<'a> for OutputStub {
    open spec fn writes(&self, c: u8, after: Self, r: Result<(), OutputError>) -> bool {
        after == *self && r == Ok::<(), OutputError>(())
    }

    open spec fn output_flag_registered(&self, flag: &'a AtomicBool, after: Self) -> bool {
        after == *self
    }

    open spec fn output_interrupt_reads(&self, occurred: bool) -> bool {
        !occurred
    }

    open spec fn output_flag_reset(&self, after: Self) -> bool {
        after == *self
    }

    open spec fn output_interrupts_report(&self, enabled: bool) -> bool {
        !enabled
    }

    fn write(&mut self, _c: u8) -> (r: Result<(), OutputError>)
        ensures
            r is Ok,
    {
        Ok(())
    }

    fn register_interrupt_flag(&mut self, _flag: &'a AtomicBool) {
    }

    fn interrupt_occurred(&self) -> (r: bool)
        ensures
            !r,
    {
        false
    }

    fn reset_interrupt_flag(&mut self) {
    }

    fn interrupts_enabled(&self) -> (r: bool)
        ensures
            !r,
    {
        false
    }
}

} // verus!
