//! The `Input` device trait and its error.

use vstd::prelude::*;
use core::sync::atomic::AtomicBool;

verus! {

/// A failed read of the input device.
#[derive(Debug, Copy, Clone, PartialEq, Eq, Hash)]
pub struct InputError;

/// A character input device (a keyboard) for an LC-3 simulator.
///
/// `read_data` marks the current character as read through interior
/// mutability, and new characters arrive without a call, so no contract
/// ties the results of these methods to one another.
pub trait Input<'a>: Default {
    /// Whether `register_interrupt_flag(flag)` on `self` can leave `after`.
    spec fn input_flag_registered(&self, flag: &'a AtomicBool, after: Self) -> bool;

    /// Whether `interrupt_occurred` can report `occurred`.
    spec fn input_interrupt_reads(&self, occurred: bool) -> bool;

    /// Whether `set_interrupt_enable_bit(bit)` on `self` can leave `after`.
    spec fn interrupt_enable_set(&self, bit: bool, after: Self) -> bool;

    /// Whether `interrupts_enabled` can report `enabled`.
    spec fn input_interrupts_report(&self, enabled: bool) -> bool;

    fn read_data(&self) -> Result<u8, InputError>;

    fn current_data_unread(&self) -> bool;

    fn register_interrupt_flag(&mut self, flag: &'a AtomicBool)
        ensures
            old(self).input_flag_registered(flag, *final(self)),
    ;

    fn interrupt_occurred(&self) -> (r: bool)
        ensures
            self.input_interrupt_reads(r),
    ;

    fn set_interrupt_enable_bit(&mut self, bit: bool)
        ensures
            old(self).interrupt_enable_set(bit, *final(self)),
    ;

    fn interrupts_enabled(&self) -> (r: bool)
        ensures
            self.input_interrupts_report(r),
    ;
}

} // verus!
