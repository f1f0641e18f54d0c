//! The few ISA-level definitions the rest of the crate needs: words,
//! addresses, registers and the address-space layout.
use vstd::prelude::*;

verus! {

/// A machine word of the LC-3.
pub type Word = u16;
/// An address in the LC-3's word-addressed memory.
pub type Addr = u16;

/// Number of words in the LC-3's address space.
pub const ADDR_SPACE_SIZE_IN_WORDS: usize = 65536;
/// First address of the memory-mapped device region.
pub const MEM_MAPPED_START_ADDR: Addr = 0xFE00;
/// Address of the memory-mapped processor status register.
pub const PSR: Addr = 0xFFFC;

/// The page that an address falls in (its upper byte).
pub open spec fn spec_page_idx(addr: Addr) -> u8 {
    (addr / 256) as u8
}

/// The offset of an address within its page (its lower byte).
pub open spec fn spec_page_offset(addr: Addr) -> u8 {
    (addr % 256) as u8
}

/// An address is its page's 256 words times the page number, plus its
/// offset: page and offset rebuild the address, and the offset is less
/// than a page.
pub proof fn lemma_page_and_offset_rebuild(addr: Addr)
    ensures
        spec_page_idx(addr) as int * 256 + spec_page_offset(addr) as int == addr as int,
        spec_page_offset(addr) < 256,
{
}

/// The address at offset `o` of page `p` lies on page `p` at offset `o`.
pub proof fn lemma_address_on_page(p: u8, o: u8)
    ensures
        spec_page_idx((p as int * 256 + o as int) as Addr) == p,
        spec_page_offset((p as int * 256 + o as int) as Addr) == o,
{
}

/// Returns the page that `addr` falls in.
pub fn page_idx(addr: Addr) -> (p: u8)
    ensures
        p == spec_page_idx(addr),
{
    (addr / 256) as u8
}

/// Returns the offset of `addr` within its page.
pub fn page_offset(addr: Addr) -> (o: u8)
    ensures
        o == spec_page_offset(addr),
{
    (addr % 256) as u8
}

/// A full image of memory: one word per address.
#[derive(Debug, Clone, PartialEq, Eq)]
pub struct MemoryDump(pub Vec<Word>);

/// The LC-3's general purpose registers.
#[derive(Debug, Copy, Clone, PartialEq, Eq, PartialOrd, Ord, Hash)]
pub enum Reg {
    R0,
    R1,
    R2,
    R3,
    R4,
    R5,
    R6,
    R7,
}

/// Number of general purpose registers.
pub const NUM_REGS: usize = 8;

/// The index of a register (`R0` is 0, ..., `R7` is 7).
pub open spec fn spec_reg_index(r: Reg) -> int {
    match r {
        Reg::R0 => 0,
        Reg::R1 => 1,
        Reg::R2 => 2,
        Reg::R3 => 3,
        Reg::R4 => 4,
        Reg::R5 => 5,
        Reg::R6 => 6,
        Reg::R7 => 7,
    }
}

/// The register with the given index.
pub open spec fn spec_reg_of_index(i: int) -> Reg {
    if i == 0 {
        Reg::R0
    } else if i == 1 {
        Reg::R1
    } else if i == 2 {
        Reg::R2
    } else if i == 3 {
        Reg::R3
    } else if i == 4 {
        Reg::R4
    } else if i == 5 {
        Reg::R5
    } else if i == 6 {
        Reg::R6
    } else {
        Reg::R7
    }
}

impl Reg {
    /// Returns the register with index `i`.
    pub fn from_index(i: usize) -> (r: Reg)
        requires
            i < NUM_REGS,
        ensures
            r == spec_reg_of_index(i as int),
            spec_reg_index(r) == i,
    {
        if i == 0 {
            Reg::R0
        } else if i == 1 {
            Reg::R1
        } else if i == 2 {
            Reg::R2
        } else if i == 3 {
            Reg::R3
        } else if i == 4 {
            Reg::R4
        } else if i == 5 {
            Reg::R5
        } else if i == 6 {
            Reg::R6
        } else {
            Reg::R7
        }
    }
}

} // verus!
