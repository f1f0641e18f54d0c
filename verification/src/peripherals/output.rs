//! The `Output` device trait and its error.

use vstd::prelude::*;
use core::sync::atomic::AtomicBool;

verus! {

/// A failed write to the output device.
#[derive(Copy, Clone, Debug, PartialEq, Eq)]
pub struct OutputError;

/// A character output device (a display) for an LC-3 simulator.
pub trait Output<'a>: Default {
    /// Writes a single ASCII character; an `Err` where the write fails.
    /// Whether `write(c)` on `self` can leave `after` and return `r`.
    spec fn writes(&self, c: u8, after: Self, r: Result<(), OutputError>) -> bool;

    /// Whether `register_interrupt_flag(flag)` on `self` can leave `after`.
    spec fn output_flag_registered(&self, flag: &'a AtomicBool, after: Self) -> bool;

    /// Whether `interrupt_occurred` can report `occurred`.
    spec fn output_interrupt_reads(&self, occurred: bool) -> bool;

    /// Whether `reset_interrupt_flag` on `self` can leave `after`.
    spec fn output_flag_reset(&self, after: Self) -> bool;

    /// Whether `interrupts_enabled` can report `enabled`.
    spec fn output_interrupts_report(&self, enabled: bool) -> bool;

    fn write(&mut self, c: u8) -> (r: Result<(), OutputError>)
        ensures
            old(self).writes(c, *final(self), r),
    ;

    fn register_interrupt_flag(&mut self, flag: &'a AtomicBool)
        ensures
            old(self).output_flag_registered(flag, *final(self)),
    ;

    fn interrupt_occurred(&self) -> (r: bool)
        ensures
            self.output_interrupt_reads(r),
    ;

    fn reset_interrupt_flag(&mut self)
        ensures
            old(self).output_flag_reset(*final(self)),
    ;

    fn interrupts_enabled(&self) -> (r: bool)
        ensures
            self.output_interrupts_report(r),
    ;
}

} // verus!
