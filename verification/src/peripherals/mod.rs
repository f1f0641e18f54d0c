//! The peripheral traits, their pins and states, stub implementations and
//! the set that bundles one of each.

pub mod adc;
pub mod pwm;
pub mod timers;
pub mod clock;
pub mod input;
pub mod output;
pub mod stubs;

use vstd::prelude::*;
use core::marker::PhantomData;
use core::sync::atomic::AtomicBool;
use crate::isa::Word;
use crate::control::snapshot::{Snapshot, SnapshotError, can_record, record_fails_as, restore_fails_as};
use adc::{Adc, AdcPin, AdcState, AdcReadError};
use pwm::{Pwm, PwmPin, PwmState, PwmSetPeriodError, PwmSetDutyError};
use timers::{Timers, TimerId, TimerArr, TimerMode, TimerState};
use clock::Clock;
use input::{Input, InputError};
use output::{Output, OutputError};

verus! {

/// Every peripheral an LC-3 simulator offers, behind one type.
pub trait Peripherals<'int>: Adc + Pwm + Timers<'int> + Clock + Input<'int> + Output<'int> {
    fn init(&mut self);
}

/// One peripheral of each kind; the set implements every peripheral trait
/// by handing each call to the member of that kind.
pub struct PeripheralSet<'int, G, A, P, T, C, I, O> where
    A: Adc,
    P: Pwm,
    T: Timers<'int>,
    C: Clock,
    I: Input<'int>,
    O: Output<'int>,
 {
    gpio: G,
    adc: A,
    pwm: P,
    timers: T,
    clock: C,
    input: I,
    output: O,
    _marker: PhantomData<&'int ()>,
}

impl<'p, G, A, P, T, C, I, O> PeripheralSet<'p, G, A, P, T, C, I, O> where
    A: Adc,
    P: Pwm,
    T: Timers<'p>,
    C: Clock,
    I: Input<'p>,
    O: Output<'p>,
 {
    /// The GPIO member.
    pub closed spec fn spec_gpio(&self) -> G {
        self.gpio
    }

    /// The ADC member.
    pub closed spec fn spec_adc(&self) -> A {
        self.adc
    }

    /// The PWM member.
    pub closed spec fn spec_pwm(&self) -> P {
        self.pwm
    }

    /// The timers member.
    pub closed spec fn spec_timers(&self) -> T {
        self.timers
    }

    /// The clock member.
    pub closed spec fn spec_clock(&self) -> C {
        self.clock
    }

    /// The input member.
    pub closed spec fn spec_input(&self) -> I {
        self.input
    }

    /// The output member.
    pub closed spec fn spec_output(&self) -> O {
        self.output
    }

    /// Every member but the ADC is the same in `self` and `other`.
    pub open spec fn others_than_adc_unchanged(&self, other: Self) -> bool {
        &&& self.spec_gpio() == other.spec_gpio()
        &&& self.spec_pwm() == other.spec_pwm()
        &&& self.spec_timers() == other.spec_timers()
        &&& self.spec_clock() == other.spec_clock()
        &&& self.spec_input() == other.spec_input()
        &&& self.spec_output() == other.spec_output()
    }

    /// Every member but the PWM is the same in `self` and `other`.
    pub open spec fn others_than_pwm_unchanged(&self, other: Self) -> bool {
        &&& self.spec_gpio() == other.spec_gpio()
        &&& self.spec_adc() == other.spec_adc()
        &&& self.spec_timers() == other.spec_timers()
        &&& self.spec_clock() == other.spec_clock()
        &&& self.spec_input() == other.spec_input()
        &&& self.spec_output() == other.spec_output()
    }

    /// Every member but the timers is the same in `self` and `other`.
    pub open spec fn others_than_timers_unchanged(&self, other: Self) -> bool {
        &&& self.spec_gpio() == other.spec_gpio()
        &&& self.spec_adc() == other.spec_adc()
        &&& self.spec_pwm() == other.spec_pwm()
        &&& self.spec_clock() == other.spec_clock()
        &&& self.spec_input() == other.spec_input()
        &&& self.spec_output() == other.spec_output()
    }

    /// Every member but the clock is the same in `self` and `other`.
    pub open spec fn others_than_clock_unchanged(&self, other: Self) -> bool {
        &&& self.spec_gpio() == other.spec_gpio()
        &&& self.spec_adc() == other.spec_adc()
        &&& self.spec_pwm() == other.spec_pwm()
        &&& self.spec_timers() == other.spec_timers()
        &&& self.spec_input() == other.spec_input()
        &&& self.spec_output() == other.spec_output()
    }

    /// Every member but the input is the same in `self` and `other`.
    pub open spec fn others_than_input_unchanged(&self, other: Self) -> bool {
        &&& self.spec_gpio() == other.spec_gpio()
        &&& self.spec_adc() == other.spec_adc()
        &&& self.spec_pwm() == other.spec_pwm()
        &&& self.spec_timers() == other.spec_timers()
        &&& self.spec_clock() == other.spec_clock()
        &&& self.spec_output() == other.spec_output()
    }

    /// Every member but the output is the same in `self` and `other`.
    pub open spec fn others_than_output_unchanged(&self, other: Self) -> bool {
        &&& self.spec_gpio() == other.spec_gpio()
        &&& self.spec_adc() == other.spec_adc()
        &&& self.spec_pwm() == other.spec_pwm()
        &&& self.spec_timers() == other.spec_timers()
        &&& self.spec_clock() == other.spec_clock()
        &&& self.spec_input() == other.spec_input()
    }

    /// A set of the given peripherals.
    pub fn new(gpio: G, adc: A, pwm: P, timers: T, clock: C, input: I, output: O) -> (r: Self)
        ensures
            r.spec_gpio() == gpio,
            r.spec_adc() == adc,
            r.spec_pwm() == pwm,
            r.spec_timers() == timers,
            r.spec_clock() == clock,
            r.spec_input() == input,
            r.spec_output() == output,
    {
        PeripheralSet { gpio, adc, pwm, timers, clock, input, output, _marker: PhantomData }
    }

    pub fn get_gpio(&self) -> (r: &G)
        ensures
            *r == self.spec_gpio(),
    {
        &self.gpio
    }

    /// The ADC member, for changing it in place; the other members stay.
    pub fn get_adc(&mut self) -> (r: &mut A)
        ensures
            *r == old(self).spec_adc(),
            final(self).spec_adc() == *final(r),
            final(self).others_than_adc_unchanged(*old(self)),
    {
        &mut self.adc
    }

    pub fn get_pwm(&self) -> (r: &P)
        ensures
            *r == self.spec_pwm(),
    {
        &self.pwm
    }

    pub fn get_timers(&self) -> (r: &T)
        ensures
            *r == self.spec_timers(),
    {
        &self.timers
    }

    pub fn get_clock(&self) -> (r: &C)
        ensures
            *r == self.spec_clock(),
    {
        &self.clock
    }

    pub fn get_input(&self) -> (r: &I)
        ensures
            *r == self.spec_input(),
    {
        &self.input
    }

    pub fn get_output(&self) -> (r: &O)
        ensures
            *r == self.spec_output(),
    {
        &self.output
    }
}

impl<'p, G: Default, A, P, T, C, I, O> Default for PeripheralSet<'p, G, A, P, T, C, I, O> where
    A: Adc,
    P: Pwm,
    T: Timers<'p>,
    C: Clock,
    I: Input<'p>,
    O: Output<'p>,
 {
    /// A set of default peripherals.
    fn default() -> (r: Self)
        ensures
            call_ensures(G::default, (), r.spec_gpio()),
            call_ensures(A::default, (), r.spec_adc()),
            call_ensures(P::default, (), r.spec_pwm()),
            call_ensures(T::default, (), r.spec_timers()),
            call_ensures(C::default, (), r.spec_clock()),
            call_ensures(I::default, (), r.spec_input()),
            call_ensures(O::default, (), r.spec_output()),
    {
        PeripheralSet {
            gpio: G::default(),
            adc: A::default(),
            pwm: P::default(),
            timers: T::default(),
            clock: C::default(),
            input: I::default(),
            output: O::default(),
            _marker: PhantomData,
        }
    }
}

impl<'p, G, A, P, T, C, I, O> Adc for PeripheralSet<'p, G, A, P, T, C, I, O> where
    G: Default,
    A: Adc,
    P: Pwm,
    T: Timers<'p>,
    C: Clock,
    I: Input<'p>,
    O: Output<'p>,
 {
    open spec fn spec_state(&self, pin: AdcPin) -> AdcState {
        self.spec_adc().spec_state(pin)
    }

    open spec fn reads(&self, pin: AdcPin, r: Result<u8, AdcReadError>) -> bool {
        self.spec_adc().reads(pin, r)
    }

    open spec fn adc_state_set(&self, pin: AdcPin, state: AdcState, after: Self, r: Result<(), ()>) -> bool {
        &&& after.others_than_adc_unchanged(*self)
        &&& self.spec_adc().adc_state_set(pin, state, after.spec_adc(), r)
    }

    fn set_state(&mut self, pin: AdcPin, state: AdcState) -> (r: Result<(), ()>) {
        self.adc.set_state(pin, state)
    }

    fn get_state(&self, pin: AdcPin) -> (r: AdcState) {
        self.adc.get_state(pin)
    }

    fn read(&self, pin: AdcPin) -> (r: Result<u8, AdcReadError>) {
        self.adc.read(pin)
    }
}

impl<'p, G, A, P, T, C, I, O> Pwm for PeripheralSet<'p, G, A, P, T, C, I, O> where
    G: Default,
    A: Adc,
    P: Pwm,
    T: Timers<'p>,
    C: Clock,
    I: Input<'p>,
    O: Output<'p>,
 {
    open spec fn spec_state(&self, pin: PwmPin) -> PwmState {
        self.spec_pwm().spec_state(pin)
    }

    open spec fn spec_duty_cycle(&self, pin: PwmPin) -> u8 {
        self.spec_pwm().spec_duty_cycle(pin)
    }

    open spec fn pwm_state_set(&self, pin: PwmPin, state: PwmState, after: Self, r: Result<(), PwmSetPeriodError>) -> bool {
        &&& after.others_than_pwm_unchanged(*self)
        &&& self.spec_pwm().pwm_state_set(pin, state, after.spec_pwm(), r)
    }

    open spec fn pin_reads(&self, pin: PwmPin, level: bool) -> bool {
        self.spec_pwm().pin_reads(pin, level)
    }

    open spec fn duty_cycle_set(&self, pin: PwmPin, duty: u8, after: Self, r: Result<(), PwmSetDutyError>) -> bool {
        &&& after.others_than_pwm_unchanged(*self)
        &&& self.spec_pwm().duty_cycle_set(pin, duty, after.spec_pwm(), r)
    }

    fn set_state(&mut self, pin: PwmPin, state: PwmState) -> (r: Result<(), PwmSetPeriodError>) {
        self.pwm.set_state(pin, state)
    }

    fn get_state(&self, pin: PwmPin) -> (r: PwmState) {
        self.pwm.get_state(pin)
    }

    fn get_pin(&self, pin: PwmPin) -> (r: bool) {
        self.pwm.get_pin(pin)
    }

    fn set_duty_cycle(&mut self, pin: PwmPin, duty: u8) -> (r: Result<(), PwmSetDutyError>)
        ensures
            final(self).others_than_pwm_unchanged(*old(self)),
    {
        self.pwm.set_duty_cycle(pin, duty)
    }

    fn get_duty_cycle(&self, pin: PwmPin) -> (r: u8) {
        self.pwm.get_duty_cycle(pin)
    }
}

impl<'p, G, A, P, T, C, I, O> Timers<'p> for PeripheralSet<'p, G, A, P, T, C, I, O> where
    G: Default,
    A: Adc,
    P: Pwm,
    T: Timers<'p>,
    C: Clock,
    I: Input<'p>,
    O: Output<'p>,
 {
    open spec fn spec_mode(&self, timer: TimerId) -> TimerMode {
        self.spec_timers().spec_mode(timer)
    }

    open spec fn state_reads(&self, timer: TimerId, s: TimerState) -> bool {
        self.spec_timers().state_reads(timer, s)
    }

    open spec fn mode_set(&self, timer: TimerId, mode: TimerMode, after: Self) -> bool {
        &&& after.others_than_timers_unchanged(*self)
        &&& self.spec_timers().mode_set(timer, mode, after.spec_timers())
    }

    open spec fn timer_state_set(&self, timer: TimerId, state: TimerState, after: Self) -> bool {
        &&& after.others_than_timers_unchanged(*self)
        &&& self.spec_timers().timer_state_set(timer, state, after.spec_timers())
    }

    open spec fn interrupt_flags_registered(&self, flags: &'p TimerArr<AtomicBool>, after: Self) -> bool {
        &&& after.others_than_timers_unchanged(*self)
        &&& self.spec_timers().interrupt_flags_registered(flags, after.spec_timers())
    }

    open spec fn interrupt_reads(&self, timer: TimerId, occurred: bool) -> bool {
        self.spec_timers().interrupt_reads(timer, occurred)
    }

    open spec fn interrupt_flag_reset(&self, timer: TimerId, after: Self) -> bool {
        &&& after.others_than_timers_unchanged(*self)
        &&& self.spec_timers().interrupt_flag_reset(timer, after.spec_timers())
    }

    fn set_mode(&mut self, timer: TimerId, mode: TimerMode)
        ensures
            final(self).others_than_timers_unchanged(*old(self)),
    {
        self.timers.set_mode(timer, mode)
    }

    fn get_mode(&self, timer: TimerId) -> (r: TimerMode) {
        self.timers.get_mode(timer)
    }

    fn set_state(&mut self, timer: TimerId, state: TimerState) {
        self.timers.set_state(timer, state)
    }

    fn get_state(&self, timer: TimerId) -> (r: TimerState) {
        self.timers.get_state(timer)
    }

    fn register_interrupt_flags(&mut self, flags: &'p TimerArr<AtomicBool>)
        ensures
            final(self).others_than_timers_unchanged(*old(self)),
    {
        self.timers.register_interrupt_flags(flags)
    }

    fn interrupt_occurred(&self, timer: TimerId) -> (r: bool) {
        self.timers.interrupt_occurred(timer)
    }

    fn reset_interrupt_flag(&mut self, timer: TimerId) {
        self.timers.reset_interrupt_flag(timer)
    }

    fn interrupts_enabled(&self, timer: TimerId) -> (r: bool) {
        let r = self.timers.interrupts_enabled(timer);
        proof {
            let s = choose|s: TimerState| self.timers.state_reads(timer, s) && r == (s is WithPeriod);
            assert(self.state_reads(timer, s));
        }
        r
    }
}

impl<'p, G, A, P, T, C, I, O> Clock for PeripheralSet<'p, G, A, P, T, C, I, O> where
    G: Default,
    A: Adc,
    P: Pwm,
    T: Timers<'p>,
    C: Clock,
    I: Input<'p>,
    O: Output<'p>,
 {
    open spec fn milliseconds_set(&self, ms: Word, after: Self) -> bool {
        &&& after.others_than_clock_unchanged(*self)
        &&& self.spec_clock().milliseconds_set(ms, after.spec_clock())
    }

    fn get_milliseconds(&self) -> (r: Word)
        ensures
            call_ensures(C::get_milliseconds, (&self.spec_clock(),), r),
    {
        self.clock.get_milliseconds()
    }

    fn set_milliseconds(&mut self, ms: Word)
        ensures
            final(self).others_than_clock_unchanged(*old(self)),
    {
        self.clock.set_milliseconds(ms)
    }
}

impl<'p, G, A, P, T, C, I, O> Input<'p> for PeripheralSet<'p, G, A, P, T, C, I, O> where
    G: Default,
    A: Adc,
    P: Pwm,
    T: Timers<'p>,
    C: Clock,
    I: Input<'p>,
    O: Output<'p>,
 {
    open spec fn input_flag_registered(&self, flag: &'p AtomicBool, after: Self) -> bool {
        &&& after.others_than_input_unchanged(*self)
        &&& self.spec_input().input_flag_registered(flag, after.spec_input())
    }

    open spec fn input_interrupt_reads(&self, occurred: bool) -> bool {
        self.spec_input().input_interrupt_reads(occurred)
    }

    open spec fn interrupt_enable_set(&self, bit: bool, after: Self) -> bool {
        &&& after.others_than_input_unchanged(*self)
        &&& self.spec_input().interrupt_enable_set(bit, after.spec_input())
    }

    open spec fn input_interrupts_report(&self, enabled: bool) -> bool {
        self.spec_input().input_interrupts_report(enabled)
    }

    fn read_data(&self) -> (r: Result<u8, InputError>)
        ensures
            call_ensures(I::read_data, (&self.spec_input(),), r),
    {
        self.input.read_data()
    }

    fn current_data_unread(&self) -> (r: bool)
        ensures
            call_ensures(I::current_data_unread, (&self.spec_input(),), r),
    {
        self.input.current_data_unread()
    }

    fn register_interrupt_flag(&mut self, flag: &'p AtomicBool) {
        self.input.register_interrupt_flag(flag)
    }

    fn interrupt_occurred(&self) -> (r: bool) {
        self.input.interrupt_occurred()
    }

    fn set_interrupt_enable_bit(&mut self, bit: bool)
        ensures
            final(self).others_than_input_unchanged(*old(self)),
    {
        self.input.set_interrupt_enable_bit(bit)
    }

    fn interrupts_enabled(&self) -> (r: bool) {
        self.input.interrupts_enabled()
    }
}

impl<'p, G, A, P, T, C, I, O> Output<'p> for PeripheralSet<'p, G, A, P, T, C, I, O> where
    G: Default,
    A: Adc,
    P: Pwm,
    T: Timers<'p>,
    C: Clock,
    I: Input<'p>,
    O: Output<'p>,
 {
    open spec fn writes(&self, c: u8, after: Self, r: Result<(), OutputError>) -> bool {
        &&& after.others_than_output_unchanged(*self)
        &&& self.spec_output().writes(c, after.spec_output(), r)
    }

    open spec fn output_flag_registered(&self, flag: &'p AtomicBool, after: Self) -> bool {
        &&& after.others_than_output_unchanged(*self)
        &&& self.spec_output().output_flag_registered(flag, after.spec_output())
    }

    open spec fn output_interrupt_reads(&self, occurred: bool) -> bool {
        self.spec_output().output_interrupt_reads(occurred)
    }

    open spec fn output_flag_reset(&self, after: Self) -> bool {
        &&& after.others_than_output_unchanged(*self)
        &&& self.spec_output().output_flag_reset(after.spec_output())
    }

    open spec fn output_interrupts_report(&self, enabled: bool) -> bool {
        self.spec_output().output_interrupts_report(enabled)
    }

    fn write(&mut self, c: u8) -> (r: Result<(), OutputError>)
        ensures
            final(self).others_than_output_unchanged(*old(self)),
    {
        self.output.write(c)
    }

    fn register_interrupt_flag(&mut self, flag: &'p AtomicBool) {
        self.output.register_interrupt_flag(flag)
    }

    fn interrupt_occurred(&self) -> (r: bool) {
        self.output.interrupt_occurred()
    }

    fn reset_interrupt_flag(&mut self) {
        self.output.reset_interrupt_flag()
    }

    fn interrupts_enabled(&self) -> (r: bool) {
        self.output.interrupts_enabled()
    }
}

impl<'p, G, A, P, T, C, I, O> Peripherals<'p> for PeripheralSet<'p, G, A, P, T, C, I, O> where
    G: Default,
    A: Adc,
    P: Pwm,
    T: Timers<'p>,
    C: Clock,
    I: Input<'p>,
    O: Output<'p>,
 {
    /// Nothing to set up: every member is ready once constructed.
    fn init(&mut self)
        ensures
            *final(self) == *old(self),
    {
    }
}

/// A set records the state of each member, in the order gpio, ADC, PWM,
/// timers, clock, input, output, and restores them in the same order; the
/// first member that fails stops the call with its error.
impl<'p, G, A, P, T, C, I, O> Snapshot for PeripheralSet<'p, G, A, P, T, C, I, O> where
    G: Snapshot,
    A: Snapshot + Adc,
    P: Snapshot + Pwm,
    T: Snapshot + Timers<'p>,
    C: Snapshot + Clock,
    I: Snapshot + Input<'p>,
    O: Snapshot + Output<'p>,
    SnapshotError: From<<G as Snapshot>::Err>,
    SnapshotError: From<<A as Snapshot>::Err>,
    SnapshotError: From<<P as Snapshot>::Err>,
    SnapshotError: From<<T as Snapshot>::Err>,
    SnapshotError: From<<C as Snapshot>::Err>,
    SnapshotError: From<<I as Snapshot>::Err>,
    SnapshotError: From<<O as Snapshot>::Err>,
 {
    type Snap = (
        <G as Snapshot>::Snap,
        <A as Snapshot>::Snap,
        <P as Snapshot>::Snap,
        <T as Snapshot>::Snap,
        <C as Snapshot>::Snap,
        <I as Snapshot>::Snap,
        <O as Snapshot>::Snap,
    );

    type Err = SnapshotError;

    /// Success records every member; a failure is the error of the first
    /// member that fails, after every earlier member recorded.
    open spec fn records(&self, r: Result<Self::Snap, SnapshotError>) -> bool {
        match r {
            Ok(snap) => {
                &&& self.spec_gpio().records(Ok(snap.0))
                &&& self.spec_adc().records(Ok(snap.1))
                &&& self.spec_pwm().records(Ok(snap.2))
                &&& self.spec_timers().records(Ok(snap.3))
                &&& self.spec_clock().records(Ok(snap.4))
                &&& self.spec_input().records(Ok(snap.5))
                &&& self.spec_output().records(Ok(snap.6))
            },
            Err(e) => {
                ||| record_fails_as(self.spec_gpio(), e)
                ||| can_record(self.spec_gpio()) && record_fails_as(self.spec_adc(), e)
                ||| can_record(self.spec_gpio()) && can_record(self.spec_adc()) && record_fails_as(
                    self.spec_pwm(),
                    e,
                )
                ||| can_record(self.spec_gpio()) && can_record(self.spec_adc()) && can_record(
                    self.spec_pwm(),
                ) && record_fails_as(self.spec_timers(), e)
                ||| can_record(self.spec_gpio()) && can_record(self.spec_adc()) && can_record(
                    self.spec_pwm(),
                ) && can_record(self.spec_timers()) && record_fails_as(self.spec_clock(), e)
                ||| can_record(self.spec_gpio()) && can_record(self.spec_adc()) && can_record(
                    self.spec_pwm(),
                ) && can_record(self.spec_timers()) && can_record(self.spec_clock())
                    && record_fails_as(self.spec_input(), e)
                ||| can_record(self.spec_gpio()) && can_record(self.spec_adc()) && can_record(
                    self.spec_pwm(),
                ) && can_record(self.spec_timers()) && can_record(self.spec_clock()) && can_record(
                    self.spec_input(),
                ) && record_fails_as(self.spec_output(), e)
            },
        }
    }

    /// Success restores every member from its part of the snapshot; a
    /// failure is the error of the first member that fails, after every
    /// earlier member was restored, and leaves the later members as they
    /// were.
    open spec fn restores(&self, snap: Self::Snap, after: &Self, r: Result<(), SnapshotError>) -> bool {
        let gpio_ok = self.spec_gpio().restores(snap.0, &after.spec_gpio(), Ok(()));
        let adc_ok = self.spec_adc().restores(snap.1, &after.spec_adc(), Ok(()));
        let pwm_ok = self.spec_pwm().restores(snap.2, &after.spec_pwm(), Ok(()));
        let timers_ok = self.spec_timers().restores(snap.3, &after.spec_timers(), Ok(()));
        let clock_ok = self.spec_clock().restores(snap.4, &after.spec_clock(), Ok(()));
        let input_ok = self.spec_input().restores(snap.5, &after.spec_input(), Ok(()));
        let output_ok = self.spec_output().restores(snap.6, &after.spec_output(), Ok(()));
        let adc_kept = after.spec_adc() == self.spec_adc();
        let pwm_kept = after.spec_pwm() == self.spec_pwm();
        let timers_kept = after.spec_timers() == self.spec_timers();
        let clock_kept = after.spec_clock() == self.spec_clock();
        let input_kept = after.spec_input() == self.spec_input();
        let output_kept = after.spec_output() == self.spec_output();
        match r {
            Ok(_) => gpio_ok && adc_ok && pwm_ok && timers_ok && clock_ok && input_ok && output_ok,
            Err(e) => {
                ||| restore_fails_as(self.spec_gpio(), snap.0, after.spec_gpio(), e) && adc_kept
                    && pwm_kept && timers_kept && clock_kept && input_kept && output_kept
                ||| gpio_ok && restore_fails_as(self.spec_adc(), snap.1, after.spec_adc(), e)
                    && pwm_kept && timers_kept && clock_kept && input_kept && output_kept
                ||| gpio_ok && adc_ok && restore_fails_as(self.spec_pwm(), snap.2, after.spec_pwm(), e)
                    && timers_kept && clock_kept && input_kept && output_kept
                ||| gpio_ok && adc_ok && pwm_ok && restore_fails_as(
                    self.spec_timers(),
                    snap.3,
                    after.spec_timers(),
                    e,
                ) && clock_kept && input_kept && output_kept
                ||| gpio_ok && adc_ok && pwm_ok && timers_ok && restore_fails_as(
                    self.spec_clock(),
                    snap.4,
                    after.spec_clock(),
                    e,
                ) && input_kept && output_kept
                ||| gpio_ok && adc_ok && pwm_ok && timers_ok && clock_ok && restore_fails_as(
                    self.spec_input(),
                    snap.5,
                    after.spec_input(),
                    e,
                ) && output_kept
                ||| gpio_ok && adc_ok && pwm_ok && timers_ok && clock_ok && input_ok
                    && restore_fails_as(self.spec_output(), snap.6, after.spec_output(), e)
            },
        }
    }

    fn record(&self) -> (r: Result<Self::Snap, Self::Err>) {
        let g = match self.gpio.record() {
            Ok(v) => v,
            Err(e) => {
                return Err(SnapshotError::from(e));
            },
        };
        let a = match self.adc.record() {
            Ok(v) => v,
            Err(e) => {
                return Err(SnapshotError::from(e));
            },
        };
        let p = match self.pwm.record() {
            Ok(v) => v,
            Err(e) => {
                return Err(SnapshotError::from(e));
            },
        };
        let t = match self.timers.record() {
            Ok(v) => v,
            Err(e) => {
                return Err(SnapshotError::from(e));
            },
        };
        let c = match self.clock.record() {
            Ok(v) => v,
            Err(e) => {
                return Err(SnapshotError::from(e));
            },
        };
        let i = match self.input.record() {
            Ok(v) => v,
            Err(e) => {
                return Err(SnapshotError::from(e));
            },
        };
        let o = match self.output.record() {
            Ok(v) => v,
            Err(e) => {
                return Err(SnapshotError::from(e));
            },
        };
        Ok((g, a, p, t, c, i, o))
    }

    fn restore(&mut self, snap: Self::Snap) -> (r: Result<(), Self::Err>) {
        let (g, a, p, t, c, i, o) = snap;
        // Each member's `Ok` carries the unit value, which the relations
        // above name as `Ok(())`.
        match self.gpio.restore(g) {
            Ok(u) => assert(u == ()),
            Err(e) => {
                return Err(SnapshotError::from(e));
            },
        }
        match self.adc.restore(a) {
            Ok(u) => assert(u == ()),
            Err(e) => {
                return Err(SnapshotError::from(e));
            },
        }
        match self.pwm.restore(p) {
            Ok(u) => assert(u == ()),
            Err(e) => {
                return Err(SnapshotError::from(e));
            },
        }
        match self.timers.restore(t) {
            Ok(u) => assert(u == ()),
            Err(e) => {
                return Err(SnapshotError::from(e));
            },
        }
        match self.clock.restore(c) {
            Ok(u) => assert(u == ()),
            Err(e) => {
                return Err(SnapshotError::from(e));
            },
        }
        match self.input.restore(i) {
            Ok(u) => assert(u == ()),
            Err(e) => {
                return Err(SnapshotError::from(e));
            },
        }
        match self.output.restore(o) {
            Ok(u) => assert(u == ()),
            Err(e) => {
                return Err(SnapshotError::from(e));
            },
        }
        Ok(())
    }
}

/// For a set whose members record themselves by cloning, restoring a
/// recorded snapshot always succeeds and leaves each member a clone of the
/// member that was recorded, whatever state the set is in when it restores.
pub proof fn lemma_restore_gives_back_the_record<'p, G, A, P, T, C, I, O>(
    recorded: PeripheralSet<'p, G, A, P, T, C, I, O>,
    snap: <PeripheralSet<'p, G, A, P, T, C, I, O> as Snapshot>::Snap,
    current: PeripheralSet<'p, G, A, P, T, C, I, O>,
    after: PeripheralSet<'p, G, A, P, T, C, I, O>,
    r: Result<(), SnapshotError>,
) where
    G: Clone,
    A: Clone + Adc,
    P: Clone + Pwm,
    T: Clone + Timers<'p>,
    C: Clone + Clock,
    I: Clone + Input<'p>,
    O: Clone + Output<'p>,

    requires
        recorded.records(Ok(snap)),
        current.restores(snap, &after, r),
    ensures
        r is Ok,
        vstd::pervasive::cloned(recorded.spec_gpio(), after.spec_gpio()),
        vstd::pervasive::cloned(recorded.spec_adc(), after.spec_adc()),
        vstd::pervasive::cloned(recorded.spec_pwm(), after.spec_pwm()),
        vstd::pervasive::cloned(recorded.spec_timers(), after.spec_timers()),
        vstd::pervasive::cloned(recorded.spec_clock(), after.spec_clock()),
        vstd::pervasive::cloned(recorded.spec_input(), after.spec_input()),
        vstd::pervasive::cloned(recorded.spec_output(), after.spec_output()),
{
}

} // verus!
