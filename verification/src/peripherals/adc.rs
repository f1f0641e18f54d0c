//! The `Adc` peripheral trait and its pins, states and errors.

use vstd::prelude::*;
use core::convert::TryFrom;

verus! {

/// The ADC's input pins.
#[derive(Debug, Copy, Clone, PartialEq, Eq, PartialOrd, Ord, Hash)]
pub enum AdcPin {
    A0,
    A1,
    A2,
    A3,
    A4,
    A5,
}

/// Number of ADC pins.
pub const ADC_NUM_PINS: usize = 6;

/// The position of a pin in pin-indexed arrays.
pub open spec fn adc_pin_index(pin: AdcPin) -> int {
    match pin {
        AdcPin::A0 => 0,
        AdcPin::A1 => 1,
        AdcPin::A2 => 2,
        AdcPin::A3 => 3,
        AdcPin::A4 => 4,
        AdcPin::A5 => 5,
    }
}

/// The pin at a position of pin-indexed arrays.
pub open spec fn adc_pin_at(i: int) -> AdcPin {
    if i == 0 {
        AdcPin::A0
    } else if i == 1 {
        AdcPin::A1
    } else if i == 2 {
        AdcPin::A2
    } else if i == 3 {
        AdcPin::A3
    } else if i == 4 {
        AdcPin::A4
    } else {
        AdcPin::A5
    }
}

impl AdcPin {
    /// Number of ADC pins.
    pub const NUM_PINS: usize = 6;

    /// The position of this pin in pin-indexed arrays (`A0` is 0, ...,
    /// `A5` is 5).
    pub fn index(self) -> (r: usize)
        ensures
            r == adc_pin_index(self),
    {
        match self {
            AdcPin::A0 => 0,
            AdcPin::A1 => 1,
            AdcPin::A2 => 2,
            AdcPin::A3 => 3,
            AdcPin::A4 => 4,
            AdcPin::A5 => 5,
        }
    }

    /// The pin at position `i`.
    pub fn from_index(i: usize) -> (p: AdcPin)
        requires
            i < 6,
        ensures
            p == adc_pin_at(i as int),
            adc_pin_index(p) == i,
    {
        if i == 0 {
            AdcPin::A0
        } else if i == 1 {
            AdcPin::A1
        } else if i == 2 {
            AdcPin::A2
        } else if i == 3 {
            AdcPin::A3
        } else if i == 4 {
            AdcPin::A4
        } else {
            AdcPin::A5
        }
    }
}

/// Whether an ADC pin is on.
#[derive(Debug, Copy, Clone, PartialEq, Eq, Hash)]
pub enum AdcState {
    Enabled,
    Disabled,
}

/// One value per ADC pin.
#[derive(Debug, Clone, PartialEq, Eq, Hash)]
pub struct AdcPinArr<T>(pub [T; 6]);

impl<T> AdcPinArr<T> {
    /// The value for `pin`.
    pub fn get(&self, pin: AdcPin) -> (r: &T)
        ensures
            *r == self.0@[adc_pin_index(pin)],
    {
        &self.0[pin.index()]
    }

    /// Replaces the value for `pin`.
    pub fn set(&mut self, pin: AdcPin, value: T)
        ensures
            final(self).0@ == old(self).0@.update(adc_pin_index(pin), value),
    {
        let i = pin.index();
        self.0[i] = value;
    }
}

impl<T> core::ops::Index<AdcPin> for AdcPinArr<T> {
    type Output = T;

    fn index(&self, pin: AdcPin) -> (r: &T)
        ensures
            *r == self.0@[adc_pin_index(pin)],
    {
        &self.0[pin.index()]
    }
}

impl<T> vstd::std_specs::core::IndexSpecImpl<AdcPin> for AdcPinArr<T> {
    open spec fn index_req(&self, pin: &AdcPin) -> bool {
        true
    }
}

impl<T> core::ops::IndexMut<AdcPin> for AdcPinArr<T> {
    fn index_mut(&mut self, pin: AdcPin) -> (r: &mut T)
        ensures
            *r == old(self).0@[adc_pin_index(pin)],
            final(self).0@ == old(self).0@.update(adc_pin_index(pin), *final(r)),
    {
        &mut self.0[pin.index()]
    }
}

impl<T> core::ops::Deref for AdcPinArr<T> {
    type Target = [T; 6];

    fn deref(&self) -> (r: &[T; 6])
        ensures
            *r == self.0,
    {
        &self.0
    }
}

/// A pin and the state it was in, for reporting a failed read.
pub type AdcStateMismatch = (AdcPin, AdcState);

/// A failed ADC read: the pin and its state.
#[derive(Debug, Copy, Clone, PartialEq, Eq, Hash)]
pub struct AdcReadError(pub AdcStateMismatch);

/// The failed reads of a whole read of the ADC, per pin.
pub type AdcStateMismatches = AdcPinArr<Option<AdcStateMismatch>>;

/// A miscellaneous ADC failure.
#[derive(Debug, Copy, Clone, PartialEq, Eq, Hash)]
pub struct AdcMiscError;

/// The failures of a whole read of the ADC.
#[derive(Debug, Clone, PartialEq, Eq, Hash)]
pub struct AdcReadErrors(pub AdcStateMismatches);

/// The failure a pin's read result records: none for a successful read.
pub open spec fn read_mismatch(r: Result<u8, AdcReadError>) -> Option<AdcStateMismatch> {
    match r {
        Ok(_) => None,
        Err(err) => Some(err.0),
    }
}

impl TryFrom<AdcPinArr<Result<u8, AdcReadError>>> for AdcReadErrors {
    type Error = ();

    /// Collects the failures among a whole read's results (a pin that was
    /// read successfully has no entry); never fails.
    fn try_from(read_errors: AdcPinArr<Result<u8, AdcReadError>>) -> (r: Result<Self, ()>) {
        let mut errors: [Option<AdcStateMismatch>; 6] = [None; 6];
        let mut i: usize = 0;
        while i < 6
            invariant
                0 <= i <= 6,
                forall|j: int| 0 <= j < 6 ==> #[trigger] errors@[j] == if j < i {
                    read_mismatch(read_errors.0@[j])
                } else {
                    None
                },
            decreases 6 - i,
        {
            match read_errors.0[i] {
                Ok(_) => {},
                Err(err) => {
                    errors[i] = Some(err.0);
                },
            }
            i = i + 1;
        }
        assert(errors =~= [
            read_mismatch(read_errors.0[0]),
            read_mismatch(read_errors.0[1]),
            read_mismatch(read_errors.0[2]),
            read_mismatch(read_errors.0[3]),
            read_mismatch(read_errors.0[4]),
            read_mismatch(read_errors.0[5]),
        ]);
        Ok(AdcReadErrors(AdcPinArr(errors)))
    }
}

impl vstd::std_specs::convert::TryFromSpecImpl<AdcPinArr<Result<u8, AdcReadError>>> for AdcReadErrors {
    open spec fn obeys_try_from_spec() -> bool {
        true
    }

    open spec fn try_from_spec(v: AdcPinArr<Result<u8, AdcReadError>>) -> Result<Self, ()> {
        Ok(
            AdcReadErrors(
                AdcPinArr(
                    [
                        read_mismatch(v.0[0]),
                        read_mismatch(v.0[1]),
                        read_mismatch(v.0[2]),
                        read_mismatch(v.0[3]),
                        read_mismatch(v.0[4]),
                        read_mismatch(v.0[5]),
                    ],
                ),
            ),
        )
    }
}

/// ADC access for the interpreter.
pub trait Adc: Default {
    /// The state `get_state` reports for a pin.
    spec fn spec_state(&self, pin: AdcPin) -> AdcState;

    /// Whether `r` is a result `read` can give for a pin.
    spec fn reads(&self, pin: AdcPin, r: Result<u8, AdcReadError>) -> bool;

    /// Whether `set_state(pin, state)` on `self` can leave `after` and
    /// return `r`.
    spec fn adc_state_set(&self, pin: AdcPin, state: AdcState, after: Self, r: Result<(), ()>) -> bool;

    fn set_state(&mut self, pin: AdcPin, state: AdcState) -> (r: Result<(), ()>)
        ensures
            old(self).adc_state_set(pin, state, *final(self), r),
    ;

    fn get_state(&self, pin: AdcPin) -> (r: AdcState)
        ensures
            r == self.spec_state(pin),
    ;

    /// The states of every pin.
    fn get_states(&self) -> (r: AdcPinArr<AdcState>)
        ensures
            forall|i: int| 0 <= i < 6 ==> #[trigger] r.0@[i] == self.spec_state(adc_pin_at(i)),
    {
        let mut states = AdcPinArr([AdcState::Disabled; 6]);
        let mut i: usize = 0;
        while i < 6
            invariant
                0 <= i <= 6,
                forall|j: int| 0 <= j < i ==> #[trigger] states.0@[j] == self.spec_state(adc_pin_at(j)),
            decreases 6 - i,
        {
            let pin = AdcPin::from_index(i);
            let s = self.get_state(pin);
            states.set(pin, s);
            i = i + 1;
        }
        states
    }

    fn read(&self, pin: AdcPin) -> (r: Result<u8, AdcReadError>)
        ensures
            self.reads(pin, r),
    ;

    /// A read of every pin.
    fn read_all(&self) -> (r: AdcPinArr<Result<u8, AdcReadError>>)
        ensures
            forall|i: int| 0 <= i < 6 ==> self.reads(adc_pin_at(i), #[trigger] r.0@[i]),
    {
        let mut readings: AdcPinArr<Result<u8, AdcReadError>> = AdcPinArr([Ok(0u8); 6]);
        let mut i: usize = 0;
        while i < 6
            invariant
                0 <= i <= 6,
                forall|j: int| 0 <= j < i ==> self.reads(adc_pin_at(j), #[trigger] readings.0@[j]),
            decreases 6 - i,
        {
            let pin = AdcPin::from_index(i);
            let r = self.read(pin);
            readings.set(pin, r);
            i = i + 1;
        }
        readings
    }
}

} // verus!
