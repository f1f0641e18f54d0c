//! Types that take part in the load API: pages, chunks, checksums and the
//! session tokens that order a page write.

use vstd::prelude::*;
use crate::isa::{Addr, Word, ADDR_SPACE_SIZE_IN_WORDS, MEM_MAPPED_START_ADDR, spec_page_idx, spec_page_offset, page_idx, page_offset};

verus! {

/// Index of a page (the upper byte of an address).
pub type PageIndex = u8;
/// Offset of a word within its page (the lower byte of an address).
pub type PageOffset = u8;

/// Number of words in a page.
pub const PAGE_SIZE_IN_WORDS: Addr = 256;
/// Number of pages in the address space.
pub const NUM_PAGES: usize = 256;
/// Number of pages that hold memory-mapped devices.
pub const NUM_MEM_MAPPED_PAGES: usize = 2;
/// Number of words in a chunk (the unit a page is sent in).
pub const CHUNK_SIZE_IN_WORDS: PageOffset = 8;
/// Number of chunks in a page.
pub const CHUNKS_IN_A_PAGE: usize = 32;

/// The layout constants agree with each other and with the address space.
pub proof fn lemma_layout()
    ensures
        (PAGE_SIZE_IN_WORDS as int) * (NUM_PAGES as int) == ADDR_SPACE_SIZE_IN_WORDS,
        NUM_MEM_MAPPED_PAGES == 255 - spec_page_idx(MEM_MAPPED_START_ADDR) + 1,
        (CHUNK_SIZE_IN_WORDS as int) * (CHUNKS_IN_A_PAGE as int) == PAGE_SIZE_IN_WORDS,
{
}

#[allow(deprecated)]
#[verifier::external_type_specification]
#[verifier::external_body]
pub struct ExSipHasher(core::hash::SipHasher);

/// Wraps `core::hash::SipHasher::new`: a hasher with both keys zero. Its
/// state is opaque here; nothing is claimed of it.
#[allow(deprecated)]
#[verifier::external_body]
fn sip_hasher_new() -> core::hash::SipHasher {
    core::hash::SipHasher::new()
}

/// Wraps `Hash::hash_slice` for words: feeds them to the hasher. Nothing
/// is claimed of the new state: the words' bytes go in the machine's byte
/// order, so it differs between machines.
#[allow(deprecated)]
#[verifier::external_body]
fn hash_words_into(words: &[Word], hasher: &mut core::hash::SipHasher) {
    core::hash::Hash::hash_slice(words, hasher)
}

/// Wraps `Hasher::finish` on a `SipHasher`: the hash of what was fed in.
/// Nothing is claimed of the value, which rests on the machine's byte
/// order through `hash_words_into`.
#[allow(deprecated)]
#[verifier::external_body]
fn sip_hasher_finish(hasher: &core::hash::SipHasher) -> u64 {
    core::hash::Hasher::finish(hasher)
}

/// A checksum of a page's words.
pub fn hash_page(page: &[Word]) -> u64 {
    let mut hasher = sip_hasher_new();
    hash_words_into(page, &mut hasher);
    sip_hasher_finish(&hasher)
}

/// A page index, as used in the load API.
#[derive(Debug, Copy, Clone, PartialEq, Eq, PartialOrd, Ord, Hash)]
pub struct Index(PageIndex);

/// What `Index::with_offset` computes: the page shifted left by eight plus
/// the offset bits (the shift amount is `8 + offset`), truncated to a word.
pub open spec fn spec_index_with_offset(page: u8, offset: u8) -> Addr {
    ((page as u16) << ((8 + offset) as u16)) as Addr
}

impl Index {
    /// The page number this index names.
    pub closed spec fn page(self) -> PageIndex {
        self.0
    }

    /// Combines the page with an offset. Note that `<<` binds looser than
    /// `+`, so the page is shifted by `8 + offset` bits; the shift must stay
    /// within a word.
    pub fn with_offset(&self, offset: PageOffset) -> (a: Addr)
        requires
            offset < 8,
        ensures
            a == spec_index_with_offset(self.page(), offset),
    {
        (self.0 as Addr) << (8u16 + (offset as Addr))
    }
}

/// An offset within a page, as used in the load API.
#[derive(Debug, Copy, Clone, PartialEq, Eq, PartialOrd, Ord, Hash)]
pub struct Offset(PageOffset);

impl Offset {
    /// The offset this token holds.
    pub closed spec fn offset(self) -> PageOffset {
        self.0
    }
}

/// Why a page write could not be started.
#[derive(Debug, Copy, Clone, PartialEq, Eq, Hash)]
pub enum StartPageWriteError {
    InvalidPage { page: u8 },
    UnfinishedSessionExists { unfinished_page: PageIndex },
}

/// Why a chunk could not be sent.
#[derive(Debug, Copy, Clone, PartialEq, Eq, Hash)]
pub enum PageChunkError {
    NoCurrentSession,
    WrongPage { expected_page: PageIndex, received_address: Addr },
    ChunkCrossesPageBoundary { page: PageIndex, received_address: Addr },
}

/// Why a page write could not be finished.
#[derive(Debug, Copy, Clone, PartialEq, Eq, Hash)]
pub enum FinishPageWriteError {
    NoCurrentSession,
    SessionMismatch { current_session_page: PageIndex, received_page: PageIndex },
    ChecksumMismatch { page: PageIndex, given_checksum: u64, computed_checksum: u64 },
}

/// The page a write session is asked to start on.
#[derive(Debug, Copy, Clone, PartialEq, Eq, PartialOrd, Ord, Hash)]
pub struct PageWriteStart(pub PageIndex);

/// A token for one step of a load session. Its field is private so that
/// tokens come only from the functions below.
#[derive(Debug, PartialEq, Eq)]
pub struct LoadApiSession<State>(State);

impl<State> LoadApiSession<State> {
    /// The state this token carries.
    pub closed spec fn state(self) -> State {
        self.0
    }

    /// Makes a token; only for this crate's own protocol code.
    pub(crate) fn make(state: State) -> (r: Self)
        ensures
            r.state() == state,
    {
        LoadApiSession(state)
    }
}

impl<State: Copy> LoadApiSession<State> {
    /// A second token carrying the same state; only for this crate's own
    /// message code.
    pub(crate) fn duplicate(&self) -> (r: Self)
        ensures
            r == *self,
    {
        LoadApiSession(self.0)
    }
}

impl LoadApiSession<PageWriteStart> {
    /// Starts a session for writing `page`; pages at or past the
    /// memory-mapped region can't be written.
    pub fn new(page: PageIndex) -> (r: Result<LoadApiSession<PageWriteStart>, StartPageWriteError>)
        ensures
            page >= spec_page_idx(MEM_MAPPED_START_ADDR) ==> r == Err::<LoadApiSession<PageWriteStart>, StartPageWriteError>(StartPageWriteError::InvalidPage { page }),
            page < spec_page_idx(MEM_MAPPED_START_ADDR) ==> (r matches Ok(s) && s.state() == PageWriteStart(page)),
    {
        if page >= page_idx(MEM_MAPPED_START_ADDR) {
            Err(StartPageWriteError::InvalidPage { page })
        } else {
            Ok(LoadApiSession(PageWriteStart(page)))
        }
    }
}

impl LoadApiSession<PageIndex> {
    /// The token for sending a chunk that starts at `addr`: `addr` must be on
    /// this session's page and the whole chunk must stay on it. A chunk
    /// can't run past the end of the address space.
    pub fn with_offset(&self, addr: Addr) -> (r: Result<LoadApiSession<Offset>, PageChunkError>)
        requires
            spec_page_idx(addr) == self.state() ==> addr as int + CHUNK_SIZE_IN_WORDS - 1 <= 0xFFFF,
        ensures
            spec_page_idx(addr) != self.state() ==> r == Err::<LoadApiSession<Offset>, PageChunkError>(PageChunkError::WrongPage { expected_page: self.state(), received_address: addr }),
            spec_page_idx(addr) == self.state() && spec_page_idx((addr + CHUNK_SIZE_IN_WORDS - 1) as Addr) != self.state() ==> r == Err::<LoadApiSession<Offset>, PageChunkError>(PageChunkError::ChunkCrossesPageBoundary { page: self.state(), received_address: addr }),
            spec_page_idx(addr) == self.state() && spec_page_idx((addr + CHUNK_SIZE_IN_WORDS - 1) as Addr) == self.state() ==> (r matches Ok(s) && s.state().offset() == spec_page_offset(addr)),
    {
        if page_idx(addr) == self.0 {
            let last = addr + ((CHUNK_SIZE_IN_WORDS - 1) as Word);
            if page_idx(addr) == page_idx(last) {
                Ok(LoadApiSession(Offset(page_offset(addr))))
            } else {
                Err(PageChunkError::ChunkCrossesPageBoundary { page: self.0, received_address: addr })
            }
        } else {
            Err(PageChunkError::WrongPage { expected_page: self.0, received_address: addr })
        }
    }
}

} // verus!
