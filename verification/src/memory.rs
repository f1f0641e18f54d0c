//! The `Memory` trait: an LC-3's memory, with pages that survive a reset
//! and words that don't.

use vstd::prelude::*;
use crate::isa::{Addr, Word};
use crate::control::load::PageIndex;
use crate::control::metadata::{ProgramMetadata, ProgramId, unknown_long_identifier_bytes};

verus! {

/// An LC-3's memory. Changes written with `commit_page` persist when `reset`
/// is called; changes written with `write_word` must not.
pub trait Memory {
    fn read_word(&self, addr: Addr) -> Word;

    fn write_word(&mut self, addr: Addr, word: Word);

    fn commit_page(&mut self, page_idx: PageIndex, page: &[Word; 256]);

    fn reset(&mut self);

    fn get_program_metadata(&self) -> ProgramMetadata;

    fn set_program_metadata(&mut self, metadata: ProgramMetadata);
}

/// A memory of a single word that every address shares.
#[derive(Debug, Clone, Copy, PartialEq, Eq, PartialOrd, Ord, Hash, Default)]
pub struct MemoryStub(pub Word);

impl Memory for MemoryStub {
    fn read_word(&self, _addr: Addr) -> (r: Word)
        ensures
            r == self.0,
    {
        self.0
    }

    fn write_word(&mut self, _addr: Addr, word: Word)
        ensures
            final(self).0 == word,
    {
        self.0 = word;
    }

    fn commit_page(&mut self, _page_idx: PageIndex, _page: &[Word; 256])
        ensures
            *final(self) == *old(self),
    {
    }

    fn reset(&mut self)
        ensures
            final(self).0 == 0,
    {
        self.0 = 0;
    }

    fn get_program_metadata(&self) -> (r: ProgramMetadata)
        ensures
            r.name@ == unknown_long_identifier_bytes(),
            r.id == ProgramId::Unknown,
            r.last_modified == 0,
    {
        ProgramMetadata::default()
    }

    fn set_program_metadata(&mut self, _metadata: ProgramMetadata)
        ensures
            *final(self) == *old(self),
    {
    }
}

} // verus!
