//! The `Clock` peripheral trait.

use vstd::prelude::*;
use crate::isa::Word;

verus! {

/// A clock peripheral for an LC-3 simulator: a word that counts the
/// milliseconds since it was created or last set, rolling over to zero.
///
/// The value moves with time, so no contract ties what `get_milliseconds`
/// returns to the clock's value.
pub trait Clock: Default {
    /// Whether `set_milliseconds(ms)` on `self` can leave `after`.
    spec fn milliseconds_set(&self, ms: Word, after: Self) -> bool;

    fn get_milliseconds(&self) -> Word;

    fn set_milliseconds(&mut self, ms: Word)
        ensures
            old(self).milliseconds_set(ms, *final(self)),
    ;
}

} // verus!
