//! The `Pwm` peripheral trait and its pins, states and errors.

use vstd::prelude::*;

verus! {

/// The period of an enabled PWM pin: a byte that is never zero.
#[derive(Debug, Copy, Clone, PartialEq, Eq, Hash)]
pub struct PwmPeriod(u8);

impl PwmPeriod {
    #[verifier::type_invariant]
    spec fn nonzero(self) -> bool {
        self.0 != 0
    }

    /// The byte this period holds.
    pub closed spec fn spec_get(self) -> u8 {
        self.0
    }

    /// A period of `n`, or `None` where `n` is zero.
    pub fn new(n: u8) -> (r: Option<PwmPeriod>)
        ensures
            r is Some <==> n != 0,
            r matches Some(p) ==> p.spec_get() == n,
    {
        if n == 0 {
            None
        } else {
            Some(PwmPeriod(n))
        }
    }

    /// The byte this period holds; never zero.
    pub fn get(self) -> (r: u8)
        ensures
            r == self.spec_get(),
            r != 0,
    {
        proof {
            use_type_invariant(&self);
        }
        self.0
    }
}

/// The PWM's output pins.
#[derive(Debug, Copy, Clone, PartialEq, Eq, PartialOrd, Ord, Hash)]
pub enum PwmPin {
    P0,
    P1,
}

/// Number of PWM pins.
pub const PWM_NUM_PINS: usize = 2;

/// The position of a pin in pin-indexed arrays.
pub open spec fn pwm_pin_index(pin: PwmPin) -> int {
    match pin {
        PwmPin::P0 => 0,
        PwmPin::P1 => 1,
    }
}

/// The pin at a position of pin-indexed arrays.
pub open spec fn pwm_pin_at(i: int) -> PwmPin {
    if i == 0 {
        PwmPin::P0
    } else {
        PwmPin::P1
    }
}

impl PwmPin {
    /// Number of PWM pins.
    pub const NUM_PINS: usize = 2;

    /// The position of this pin in pin-indexed arrays (`P0` is 0, `P1` is 1).
    pub fn index(self) -> (r: usize)
        ensures
            r == pwm_pin_index(self),
    {
        match self {
            PwmPin::P0 => 0,
            PwmPin::P1 => 1,
        }
    }

    /// The pin at position `i`.
    pub fn from_index(i: usize) -> (p: PwmPin)
        requires
            i < 2,
        ensures
            p == pwm_pin_at(i as int),
            pwm_pin_index(p) == i,
    {
        if i == 0 {
            PwmPin::P0
        } else {
            PwmPin::P1
        }
    }
}

/// Whether a PWM pin is on, and with which period.
#[derive(Debug, Copy, Clone, PartialEq, Eq, Hash)]
pub enum PwmState {
    Enabled(PwmPeriod),
    Disabled,
}

/// One value per PWM pin.
#[derive(Debug, Clone, PartialEq, Eq, Hash)]
pub struct PwmPinArr<T>(pub [T; 2]);

impl<T> PwmPinArr<T> {
    /// The value for `pin`.
    pub fn get(&self, pin: PwmPin) -> (r: &T)
        ensures
            *r == self.0@[pwm_pin_index(pin)],
    {
        &self.0[pin.index()]
    }

    /// Replaces the value for `pin`.
    pub fn set(&mut self, pin: PwmPin, value: T)
        ensures
            final(self).0@ == old(self).0@.update(pwm_pin_index(pin), value),
    {
        let i = pin.index();
        self.0[i] = value;
    }
}

impl<T> core::ops::Index<PwmPin> for PwmPinArr<T> {
    type Output = T;

    fn index(&self, pin: PwmPin) -> (r: &T)
        ensures
            *r == self.0@[pwm_pin_index(pin)],
    {
        &self.0[pin.index()]
    }
}

impl<T> vstd::std_specs::core::IndexSpecImpl<PwmPin> for PwmPinArr<T> {
    open spec fn index_req(&self, pin: &PwmPin) -> bool {
        true
    }
}

impl<T> core::ops::IndexMut<PwmPin> for PwmPinArr<T> {
    fn index_mut(&mut self, pin: PwmPin) -> (r: &mut T)
        ensures
            *r == old(self).0@[pwm_pin_index(pin)],
            final(self).0@ == old(self).0@.update(pwm_pin_index(pin), *final(r)),
    {
        &mut self.0[pin.index()]
    }
}

impl<T> core::ops::Deref for PwmPinArr<T> {
    type Target = [T; 2];

    fn deref(&self) -> (r: &[T; 2])
        ensures
            *r == self.0,
    {
        &self.0
    }
}

/// A failure to set the period (state) of a pin.
#[derive(Debug, Copy, Clone, PartialEq, Eq, Hash)]
pub struct PwmSetPeriodError(pub PwmPin);

/// A failure to set the duty cycle of a pin.
#[derive(Debug, Copy, Clone, PartialEq, Eq, Hash)]
pub struct PwmSetDutyError(pub PwmPin);

/// PWM access for the interpreter.
pub trait Pwm: Default {
    /// The state `get_state` reports for a pin.
    spec fn spec_state(&self, pin: PwmPin) -> PwmState;

    /// The duty cycle `get_duty_cycle` reports for a pin.
    spec fn spec_duty_cycle(&self, pin: PwmPin) -> u8;

    /// Whether `set_state(pin, state)` on `self` can leave `after` and
    /// return `r`.
    spec fn pwm_state_set(&self, pin: PwmPin, state: PwmState, after: Self, r: Result<(), PwmSetPeriodError>) -> bool;

    /// Whether `level` is a level `get_pin` can report for a pin.
    spec fn pin_reads(&self, pin: PwmPin, level: bool) -> bool;

    /// Whether `set_duty_cycle(pin, duty)` on `self` can leave `after` and
    /// return `r`.
    spec fn duty_cycle_set(&self, pin: PwmPin, duty: u8, after: Self, r: Result<(), PwmSetDutyError>) -> bool;

    fn set_state(&mut self, pin: PwmPin, state: PwmState) -> (r: Result<(), PwmSetPeriodError>)
        ensures
            old(self).pwm_state_set(pin, state, *final(self), r),
    ;

    fn get_state(&self, pin: PwmPin) -> (r: PwmState)
        ensures
            r == self.spec_state(pin),
    ;

    /// The states of every pin.
    fn get_states(&self) -> (r: PwmPinArr<PwmState>)
        ensures
            forall|i: int| 0 <= i < 2 ==> #[trigger] r.0@[i] == self.spec_state(pwm_pin_at(i)),
    {
        let mut states = PwmPinArr([PwmState::Disabled; 2]);
        let mut i: usize = 0;
        while i < 2
            invariant
                0 <= i <= 2,
                forall|j: int| 0 <= j < i ==> #[trigger] states.0@[j] == self.spec_state(pwm_pin_at(j)),
            decreases 2 - i,
        {
            let pin = PwmPin::from_index(i);
            let s = self.get_state(pin);
            states.set(pin, s);
            i = i + 1;
        }
        states
    }

    /// The level the pin outputs at the moment of the call.
    fn get_pin(&self, pin: PwmPin) -> (r: bool)
        ensures
            self.pin_reads(pin, r),
    ;

    fn set_duty_cycle(&mut self, pin: PwmPin, duty: u8) -> (r: Result<(), PwmSetDutyError>)
        ensures
            old(self).duty_cycle_set(pin, duty, *final(self), r),
    ;

    fn get_duty_cycle(&self, pin: PwmPin) -> (r: u8)
        ensures
            r == self.spec_duty_cycle(pin),
    ;

    /// The duty cycles of every pin.
    fn get_duty_cycles(&self) -> (r: PwmPinArr<u8>)
        ensures
            forall|i: int| 0 <= i < 2 ==> #[trigger] r.0@[i] == self.spec_duty_cycle(pwm_pin_at(i)),
    {
        let mut duty_cycles = PwmPinArr([0u8; 2]);
        let mut i: usize = 0;
        while i < 2
            invariant
                0 <= i <= 2,
                forall|j: int| 0 <= j < i ==> #[trigger] duty_cycles.0@[j] == self.spec_duty_cycle(pwm_pin_at(j)),
            decreases 2 - i,
        {
            let pin = PwmPin::from_index(i);
            let d = self.get_duty_cycle(pin);
            duty_cycles.set(pin, d);
            i = i + 1;
        }
        duty_cycles
    }
}

} // verus!
