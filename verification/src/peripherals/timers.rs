//! The `Timers` peripheral trait and its ids, modes, states and periods.

use vstd::prelude::*;
use core::sync::atomic::AtomicBool;

verus! {

/// The timers.
#[derive(Debug, Copy, Clone, PartialEq, Eq, PartialOrd, Ord, Hash)]
pub enum TimerId {
    T0,
    T1,
}

/// The position of a timer in timer-indexed arrays.
pub open spec fn timer_index(timer: TimerId) -> int {
    match timer {
        TimerId::T0 => 0,
        TimerId::T1 => 1,
    }
}

/// The timer at a position of timer-indexed arrays.
pub open spec fn timer_at(i: int) -> TimerId {
    if i == 0 {
        TimerId::T0
    } else {
        TimerId::T1
    }
}

impl TimerId {
    /// Number of timers.
    pub const NUM_TIMERS: usize = 2;

    /// The position of this timer in timer-indexed arrays (`T0` is 0, `T1`
    /// is 1).
    pub fn index(self) -> (r: usize)
        ensures
            r == timer_index(self),
    {
        match self {
            TimerId::T0 => 0,
            TimerId::T1 => 1,
        }
    }

    /// The timer at position `i`.
    pub fn from_index(i: usize) -> (t: TimerId)
        requires
            i < 2,
        ensures
            t == timer_at(i as int),
            timer_index(t) == i,
    {
        if i == 0 {
            TimerId::T0
        } else {
            TimerId::T1
        }
    }
}

/// One value per timer.
#[derive(Debug, Clone, PartialEq, Eq, Hash)]
pub struct TimerArr<T>(pub [T; 2]);

impl<T> TimerArr<T> {
    /// The value for `timer`.
    pub fn get(&self, timer: TimerId) -> (r: &T)
        ensures
            *r == self.0@[timer_index(timer)],
    {
        &self.0[timer.index()]
    }

    /// Replaces the value for `timer`.
    pub fn set(&mut self, timer: TimerId, value: T)
        ensures
            final(self).0@ == old(self).0@.update(timer_index(timer), value),
    {
        let i = timer.index();
        self.0[i] = value;
    }
}

impl<T> core::ops::Index<TimerId> for TimerArr<T> {
    type Output = T;

    fn index(&self, timer: TimerId) -> (r: &T)
        ensures
            *r == self.0@[timer_index(timer)],
    {
        &self.0[timer.index()]
    }
}

impl<T> vstd::std_specs::core::IndexSpecImpl<TimerId> for TimerArr<T> {
    open spec fn index_req(&self, timer: &TimerId) -> bool {
        true
    }
}

impl<T> core::ops::IndexMut<TimerId> for TimerArr<T> {
    fn index_mut(&mut self, timer: TimerId) -> (r: &mut T)
        ensures
            *r == old(self).0@[timer_index(timer)],
            final(self).0@ == old(self).0@.update(timer_index(timer), *final(r)),
    {
        &mut self.0[timer.index()]
    }
}

impl<T> core::ops::Deref for TimerArr<T> {
    type Target = [T; 2];

    fn deref(&self) -> (r: &[T; 2])
        ensures
            *r == self.0,
    {
        &self.0
    }
}

/// Whether a timer fires once or every period.
#[derive(Debug, Copy, Clone, PartialEq, Eq, Hash)]
pub enum TimerMode {
    Repeated,
    SingleShot,
}

/// The period of a timer, in milliseconds: a word that is never zero.
#[derive(Debug, Copy, Clone, PartialEq, Eq, Hash)]
pub struct Period(u16);

impl Period {
    #[verifier::type_invariant]
    spec fn nonzero(self) -> bool {
        self.0 != 0
    }

    /// The word this period holds.
    pub closed spec fn spec_get(self) -> u16 {
        self.0
    }

    /// A period of `n`, or `None` where `n` is zero.
    pub fn new(n: u16) -> (r: Option<Period>)
        ensures
            r is Some <==> n != 0,
            r matches Some(p) ==> p.spec_get() == n,
    {
        if n == 0 {
            None
        } else {
            Some(Period(n))
        }
    }

    /// The word this period holds; never zero.
    pub fn get(self) -> (r: u16)
        ensures
            r == self.spec_get(),
            r != 0,
    {
        proof {
            use_type_invariant(&self);
        }
        self.0
    }
}

/// Whether a timer is counting, and with which period.
#[derive(Debug, Copy, Clone, PartialEq, Eq, Hash)]
pub enum TimerState {
    Disabled,
    WithPeriod(Period),
}

/// A timer peripheral for an LC-3 simulator: timers that raise an interrupt
/// once, or every period, after a period of time.
///
/// A timer's state can change without a call (a single-shot timer disables
/// itself once its period has elapsed), so what `get_state` reports is
/// stated as a relation: `state_reads(timer, s)` holds of every state `s`
/// that a call may return.
pub trait Timers<'a>: Default {
    /// The mode `get_mode` reports for a timer.
    spec fn spec_mode(&self, timer: TimerId) -> TimerMode;

    /// Whether `s` is a state `get_state` can report for a timer.
    spec fn state_reads(&self, timer: TimerId, s: TimerState) -> bool;

    /// Whether `set_mode(timer, mode)` on `self` can leave `after`.
    spec fn mode_set(&self, timer: TimerId, mode: TimerMode, after: Self) -> bool;

    /// Whether `set_state(timer, state)` on `self` can leave `after`.
    spec fn timer_state_set(&self, timer: TimerId, state: TimerState, after: Self) -> bool;

    /// Whether `register_interrupt_flags(flags)` on `self` can leave `after`.
    spec fn interrupt_flags_registered(&self, flags: &'a TimerArr<AtomicBool>, after: Self) -> bool;

    /// Whether `interrupt_occurred(timer)` can report `occurred`.
    spec fn interrupt_reads(&self, timer: TimerId, occurred: bool) -> bool;

    /// Whether `reset_interrupt_flag(timer)` on `self` can leave `after`.
    spec fn interrupt_flag_reset(&self, timer: TimerId, after: Self) -> bool;

    fn set_mode(&mut self, timer: TimerId, mode: TimerMode)
        ensures
            old(self).mode_set(timer, mode, *final(self)),
    ;

    fn get_mode(&self, timer: TimerId) -> (r: TimerMode)
        ensures
            r == self.spec_mode(timer),
    ;

    /// The modes of every timer.
    fn get_modes(&self) -> (r: TimerArr<TimerMode>)
        ensures
            forall|i: int| 0 <= i < 2 ==> #[trigger] r.0@[i] == self.spec_mode(timer_at(i)),
    {
        let mut modes = TimerArr([TimerMode::SingleShot; 2]);
        let mut i: usize = 0;
        while i < 2
            invariant
                0 <= i <= 2,
                forall|j: int| 0 <= j < i ==> #[trigger] modes.0@[j] == self.spec_mode(timer_at(j)),
            decreases 2 - i,
        {
            let t = TimerId::from_index(i);
            let m = self.get_mode(t);
            modes.set(t, m);
            i = i + 1;
        }
        modes
    }

    fn set_state(&mut self, timer: TimerId, state: TimerState)
        ensures
            old(self).timer_state_set(timer, state, *final(self)),
    ;

    fn get_state(&self, timer: TimerId) -> (r: TimerState)
        ensures
            self.state_reads(timer, r),
    ;

    /// The states of every timer.
    fn get_states(&self) -> (r: TimerArr<TimerState>)
        ensures
            forall|i: int| 0 <= i < 2 ==> self.state_reads(timer_at(i), #[trigger] r.0@[i]),
    {
        let mut states = TimerArr([TimerState::Disabled; 2]);
        let mut i: usize = 0;
        while i < 2
            invariant
                0 <= i <= 2,
                forall|j: int| 0 <= j < i ==> self.state_reads(timer_at(j), #[trigger] states.0@[j]),
            decreases 2 - i,
        {
            let t = TimerId::from_index(i);
            let s = self.get_state(t);
            states.set(t, s);
            i = i + 1;
        }
        states
    }

    fn register_interrupt_flags(&mut self, flags: &'a TimerArr<AtomicBool>)
        ensures
            old(self).interrupt_flags_registered(flags, *final(self)),
    ;

    fn interrupt_occurred(&self, timer: TimerId) -> (r: bool)
        ensures
            self.interrupt_reads(timer, r),
    ;

    fn reset_interrupt_flag(&mut self, timer: TimerId)
        ensures
            old(self).interrupt_flag_reset(timer, *final(self)),
    ;

    /// Whether the timer's interrupts are enabled: whether the state it
    /// reports has a period.
    fn interrupts_enabled(&self, timer: TimerId) -> (r: bool)
        ensures
            exists|s: TimerState| self.state_reads(timer, s) && r == (s is WithPeriod),
    {
        let s = self.get_state(timer);
        match s {
            TimerState::WithPeriod(_) => true,
            TimerState::Disabled => false,
        }
    }
}

} // verus!
