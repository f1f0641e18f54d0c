//! The control interface: what a debugger or a host can ask of a running
//! LC-3 simulator, and the events and states it reports.

use vstd::prelude::*;
use crate::isa::{Addr, Word, Reg, NUM_REGS, PSR, spec_reg_of_index};
use crate::control::load::{
    LoadApiSession, PageWriteStart, PageIndex, Offset, StartPageWriteError, PageChunkError,
    FinishPageWriteError,
};
use crate::control::metadata::{
    DeviceInfo, Identifier, ProgramMetadata, Capabilities, Version, all_ascii,
};
use crate::control::ranges::UnifiedRange;
use crate::peripherals::adc::{AdcPinArr, AdcState, AdcReadError};
use crate::peripherals::pwm::{PwmPinArr, PwmState};
use crate::peripherals::timers::{TimerArr, TimerMode, TimerState};

verus! {

/// Maximum number of breakpoints a device keeps.
pub const MAX_BREAKPOINTS: usize = 10;
/// Maximum number of memory watchpoints a device keeps.
pub const MAX_MEMORY_WATCHPOINTS: usize = 10;

/// Something that stopped a running program.
#[derive(Debug, Copy, Clone, PartialEq, Eq, Hash)]
pub enum Event {
    Breakpoint { addr: Addr },
    MemoryWatch { addr: Addr, data: Word },
    /// Returned when a run is paused.
    Interrupted,
    Halted,
}

/// What a device is doing.
#[derive(Debug, Copy, Clone, PartialEq, Eq, Hash)]
pub enum State {
    Paused,
    RunningUntilEvent,
    Halted,
}

/// Device information from its parts, with no extra capabilities and no
/// proxies: what a device reports unless it says more.
pub fn default_device_info(name: Identifier, version: Version, type_id: u64) -> (r: DeviceInfo)
    ensures
        r == (DeviceInfo {
            name,
            version,
            type_id,
            capabilities: Capabilities { disk: false, display: false },
            proxies: [None, None, None],
        }),
{
    DeviceInfo::new(
        name,
        version,
        type_id,
        Capabilities { disk: false, display: false },
        [None, None, None],
    )
}

/// The control interface of an LC-3 simulator.
///
/// Every method but `tick` can be carried to a device over the RPC layer,
/// so no contract here ties what a query returns to the device's state: a
/// proxied implementation returns whatever the device answered.
pub trait Control {
    type EventFuture;

    /// Whether `after` is a state that `set_depth_condition(condition)` on
    /// `self` can leave, returning `r`.
    spec fn depth_condition_set(
        &self,
        after: Self,
        condition: UnifiedRange<u64>,
        r: Result<Option<UnifiedRange<u64>>, ()>,
    ) -> bool where Self: Sized;

    /// Whether `set_pc(addr)` on `self` can leave `after`.
    spec fn pc_set(&self, addr: Addr, after: &Self) -> bool;

    /// Whether `set_register(reg, data)` on `self` can leave `after`.
    spec fn register_set(&self, reg: Reg, data: Word, after: &Self) -> bool;

    /// Whether `write_word(addr, word)` on `self` can leave `after`.
    spec fn word_written(&self, addr: Addr, word: Word, after: &Self) -> bool;

    /// Whether `set_breakpoint(addr)` on `self` can leave `after` and
    /// return `r`.
    spec fn breakpoint_set(&self, addr: Addr, after: &Self, r: Result<usize, ()>) -> bool;

    /// Whether `unset_breakpoint(idx)` on `self` can leave `after` and
    /// return `r`.
    spec fn breakpoint_unset(&self, idx: usize, after: &Self, r: Result<(), ()>) -> bool;

    /// Whether `set_memory_watchpoint(addr)` on `self` can leave `after`
    /// and return `r`.
    spec fn watchpoint_set(&self, addr: Addr, after: &Self, r: Result<usize, ()>) -> bool;

    /// Whether `unset_memory_watchpoint(idx)` on `self` can leave `after`
    /// and return `r`.
    spec fn watchpoint_unset(&self, idx: usize, after: &Self, r: Result<(), ()>) -> bool;

    /// Whether `run_until_event` on `self` can leave `after` and return the
    /// future `r`.
    spec fn run_started(&self, after: &Self, r: Self::EventFuture) -> bool;

    /// Whether `step` on `self` can leave `after` and return `r`.
    spec fn stepped(&self, after: &Self, r: Option<Event>) -> bool;

    /// Whether `pause` on `self` can leave `after`.
    spec fn paused(&self, after: &Self) -> bool;

    /// Whether `start_page_write(page, checksum)` on `self` can leave
    /// `after` and return `r`.
    spec fn page_write_started(
        &self,
        page: LoadApiSession<PageWriteStart>,
        checksum: u64,
        after: &Self,
        r: Result<LoadApiSession<PageIndex>, StartPageWriteError>,
    ) -> bool;

    /// Whether `send_page_chunk(offset, chunk)` on `self` can leave `after`
    /// and return `r`.
    spec fn page_chunk_sent(
        &self,
        offset: LoadApiSession<Offset>,
        chunk: [Word; 8],
        after: &Self,
        r: Result<(), PageChunkError>,
    ) -> bool;

    /// Whether `finish_page_write(page)` on `self` can leave `after` and
    /// return `r`.
    spec fn page_write_finished(
        &self,
        page: LoadApiSession<PageIndex>,
        after: &Self,
        r: Result<(), FinishPageWriteError>,
    ) -> bool;

    /// Whether `unset_depth_condition` on `self` can leave `after` and
    /// return `r`.
    spec fn depth_condition_unset(&self, after: &Self, r: Option<UnifiedRange<u64>>) -> bool;

    /// Whether `reset` on `self` can leave `after`.
    spec fn machine_reset(&self, after: &Self) -> bool;

    /// Whether `set_program_metadata(metadata)` on `self` can leave `after`.
    spec fn program_metadata_set(&self, metadata: ProgramMetadata, after: &Self) -> bool;

    fn get_pc(&self) -> Addr;

    fn set_pc(&mut self, addr: Addr)
        ensures
            old(self).pc_set(addr, final(self)),
    ;

    fn get_register(&self, reg: Reg) -> Word;

    fn set_register(&mut self, reg: Reg, data: Word)
        ensures
            old(self).register_set(reg, data, final(self)),
    ;

    /// Every register, the processor status register and the program
    /// counter, read one by one.
    fn get_registers_psr_and_pc(&self) -> (r: ([Word; 8], Word, Word))
        ensures
            forall|i: int|
                0 <= i < 8 ==> call_ensures(Self::get_register, (self, spec_reg_of_index(i)), #[trigger] r.0@[i]),
            call_ensures(Self::read_word, (self, PSR), r.1),
            call_ensures(Self::get_pc, (self,), r.2),
    {
        let mut regs: [Word; 8] = [0; 8];
        let mut idx: usize = 0;
        while idx < NUM_REGS
            invariant
                0 <= idx <= 8,
                forall|i: int|
                    0 <= i < idx ==> call_ensures(Self::get_register, (self, spec_reg_of_index(i)), #[trigger] regs@[i]),
            decreases 8 - idx,
        {
            let reg = Reg::from_index(idx);
            regs[idx] = self.get_register(reg);
            idx = idx + 1;
        }
        let psr = self.read_word(PSR);
        let pc = self.get_pc();
        (regs, psr, pc)
    }

    fn read_word(&self, addr: Addr) -> Word;

    fn write_word(&mut self, addr: Addr, word: Word)
        ensures
            old(self).word_written(addr, word, final(self)),
    ;

    /// Starts a load session for the page in `page`.
    fn start_page_write(
        &mut self,
        page: LoadApiSession<PageWriteStart>,
        checksum: u64,
    ) -> (r: Result<LoadApiSession<PageIndex>, StartPageWriteError>)
        ensures
            old(self).page_write_started(page, checksum, final(self), r),
    ;

    /// Sends one chunk of the current session's page.
    fn send_page_chunk(
        &mut self,
        offset: LoadApiSession<Offset>,
        chunk: [Word; 8],
    ) -> (r: Result<(), PageChunkError>)
        ensures
            old(self).page_chunk_sent(offset, chunk, final(self), r),
    ;

    /// Ends the session started by `start_page_write`.
    fn finish_page_write(
        &mut self,
        page: LoadApiSession<PageIndex>,
    ) -> (r: Result<(), FinishPageWriteError>)
        ensures
            old(self).page_write_finished(page, final(self), r),
    ;

    fn set_breakpoint(&mut self, addr: Addr) -> (r: Result<usize, ()>)
        ensures
            old(self).breakpoint_set(addr, final(self), r),
    ;

    fn unset_breakpoint(&mut self, idx: usize) -> (r: Result<(), ()>)
        ensures
            old(self).breakpoint_unset(idx, final(self), r),
    ;

    fn get_breakpoints(&self) -> [Option<Addr>; 10];

    fn get_max_breakpoints(&self) -> (r: usize)
        default_ensures
            r == MAX_BREAKPOINTS,
    {
        MAX_BREAKPOINTS
    }

    fn set_memory_watchpoint(&mut self, addr: Addr) -> (r: Result<usize, ()>)
        ensures
            old(self).watchpoint_set(addr, final(self), r),
    ;

    fn unset_memory_watchpoint(&mut self, idx: usize) -> (r: Result<(), ()>)
        ensures
            old(self).watchpoint_unset(idx, final(self), r),
    ;

    fn get_memory_watchpoints(&self) -> [Option<(Addr, Word)>; 10];

    fn get_max_memory_watchpoints(&self) -> (r: usize)
        default_ensures
            r == MAX_MEMORY_WATCHPOINTS,
    {
        MAX_MEMORY_WATCHPOINTS
    }

    /// Makes the program stop when its call depth falls in `condition`;
    /// returns the condition it replaces.
    fn set_depth_condition(&mut self, condition: UnifiedRange<u64>) -> (r: Result<
        Option<UnifiedRange<u64>>,
        (),
    >) where Self: Sized
        ensures
            old(self).depth_condition_set(*final(self), condition, r),
    ;

    /// Removes the depth condition; returns it.
    fn unset_depth_condition(&mut self) -> (r: Option<UnifiedRange<u64>>)
        ensures
            old(self).depth_condition_unset(final(self), r),
    ;

    /// The current call depth of the program.
    fn get_depth(&self) -> Result<u64, ()>;

    /// Runs until an event; the future resolves with it. Can be interrupted
    /// by a step or a pause.
    fn run_until_event(&mut self) -> (r: Self::EventFuture)
        ensures
            old(self).run_started(final(self), r),
    ;

    /// Lets the simulator make progress; returns how many instructions ran
    /// (more than zero whenever any did). Not carried over the RPC layer.
    fn tick(&mut self) -> usize;

    fn step(&mut self) -> (r: Option<Event>)
        ensures
            old(self).stepped(final(self), r),
    ;

    fn pause(&mut self)
        ensures
            old(self).paused(final(self)),
    ;

    fn get_state(&self) -> State;

    /// Resets the machine, memory included.
    fn reset(&mut self)
        ensures
            old(self).machine_reset(final(self)),
    ;

    fn get_adc_states(&self) -> AdcPinArr<AdcState>;

    fn get_adc_readings(&self) -> AdcPinArr<Result<u8, AdcReadError>>;

    fn get_timer_modes(&self) -> TimerArr<TimerMode>;

    fn get_timer_states(&self) -> TimerArr<TimerState>;

    fn get_pwm_states(&self) -> PwmPinArr<PwmState>;

    fn get_pwm_config(&self) -> PwmPinArr<u8>;

    fn get_clock(&self) -> Word;

    /// What the device is; see `default_device_info` for the usual answer.
    fn get_device_info(&self) -> DeviceInfo;

    fn get_program_metadata(&self) -> ProgramMetadata;

    fn set_program_metadata(&mut self, metadata: ProgramMetadata)
        ensures
            old(self).program_metadata_set(metadata, final(self)),
    ;

    /// The name of the implementation; not carried over the RPC layer.
    fn id(&self) -> (r: Identifier)
        default_ensures
            r@ == seq![63u8, 63u8, 63u8, 63u8],
    {
        let name: [u8; 4] = [63u8, 63u8, 63u8, 63u8];
        assert(all_ascii(name@));
        Identifier::new_that_crashes_on_invalid_inputs(name)
    }
}

} // verus!
