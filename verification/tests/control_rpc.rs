use lc3_traits::control::control::{Control, Event, State};
use lc3_traits::control::control_rpc::{client_reply, execute_signal, ClientReply, Message, Signal};
use lc3_traits::control::load::{
    FinishPageWriteError, LoadApiSession, Offset, PageChunkError, PageIndex, PageWriteStart,
    StartPageWriteError,
};
use lc3_traits::control::metadata::{DeviceInfo, Identifier, ProgramMetadata, Version};
use lc3_traits::control::ranges::UnifiedRange;
use lc3_traits::isa::Reg;
use lc3_traits::peripherals::adc::{AdcPinArr, AdcReadError, AdcState};
use lc3_traits::peripherals::pwm::{PwmPinArr, PwmState};
use lc3_traits::peripherals::timers::{TimerArr, TimerMode, TimerState};

#[derive(Default)]
struct Probe {
    pc: u16,
    watches: Vec<u16>,
    unset: Vec<usize>,
    runs: usize,
}

impl Control for Probe {
    type EventFuture = ();

    fn depth_condition_set(
        &self,
        _after: Self,
        _condition: UnifiedRange<u64>,
        r: Result<Option<UnifiedRange<u64>>, ()>,
    ) -> bool {
        r.is_err()
    }
    fn pc_set(&self, addr: u16, after: &Self) -> bool {
        after.pc == addr
    }
    fn register_set(&self, _reg: Reg, _data: u16, after: &Self) -> bool {
        after.pc == self.pc
    }
    fn word_written(&self, _addr: u16, _word: u16, after: &Self) -> bool {
        after.pc == self.pc
    }
    fn breakpoint_set(&self, _addr: u16, _after: &Self, r: Result<usize, ()>) -> bool {
        r == Ok(0)
    }
    fn breakpoint_unset(&self, idx: usize, after: &Self, r: Result<(), ()>) -> bool {
        after.unset.last() == Some(&idx) && r.is_ok()
    }
    fn watchpoint_set(&self, addr: u16, after: &Self, r: Result<usize, ()>) -> bool {
        after.watches.last() == Some(&addr) && r == Ok(0)
    }
    fn watchpoint_unset(&self, _idx: usize, _after: &Self, r: Result<(), ()>) -> bool {
        r.is_ok()
    }
    fn run_started(&self, after: &Self, _r: ()) -> bool {
        after.runs == self.runs + 1
    }
    fn stepped(&self, _after: &Self, r: Option<Event>) -> bool {
        r.is_none()
    }
    fn paused(&self, after: &Self) -> bool {
        after.pc == self.pc
    }
    fn page_write_started(
        &self,
        _page: LoadApiSession<PageWriteStart>,
        _checksum: u64,
        _after: &Self,
        r: Result<LoadApiSession<PageIndex>, StartPageWriteError>,
    ) -> bool {
        r.is_err()
    }
    fn page_chunk_sent(
        &self,
        _offset: LoadApiSession<Offset>,
        _chunk: [u16; 8],
        _after: &Self,
        r: Result<(), PageChunkError>,
    ) -> bool {
        r.is_err()
    }
    fn page_write_finished(
        &self,
        _page: LoadApiSession<PageIndex>,
        _after: &Self,
        r: Result<(), FinishPageWriteError>,
    ) -> bool {
        r.is_err()
    }
    fn depth_condition_unset(&self, _after: &Self, r: Option<UnifiedRange<u64>>) -> bool {
        r.is_none()
    }
    fn machine_reset(&self, after: &Self) -> bool {
        after.pc == self.pc
    }
    fn program_metadata_set(&self, _metadata: ProgramMetadata, after: &Self) -> bool {
        after.pc == self.pc
    }
    fn get_pc(&self) -> u16 {
        self.pc
    }
    fn set_pc(&mut self, addr: u16) {
        self.pc = addr;
    }
    fn get_register(&self, _reg: Reg) -> u16 {
        11
    }
    fn set_register(&mut self, _reg: Reg, _data: u16) {}
    fn read_word(&self, addr: u16) -> u16 {
        addr.wrapping_add(1)
    }
    fn write_word(&mut self, _addr: u16, _word: u16) {}
    fn start_page_write(&mut self, _p: LoadApiSession<PageWriteStart>, _c: u64) -> Result<LoadApiSession<PageIndex>, StartPageWriteError> {
        Err(StartPageWriteError::InvalidPage { page: 0 })
    }
    fn send_page_chunk(&mut self, _o: LoadApiSession<Offset>, _c: [u16; 8]) -> Result<(), PageChunkError> {
        Err(PageChunkError::NoCurrentSession)
    }
    fn finish_page_write(&mut self, _p: LoadApiSession<PageIndex>) -> Result<(), FinishPageWriteError> {
        Err(FinishPageWriteError::NoCurrentSession)
    }
    fn set_breakpoint(&mut self, _addr: u16) -> Result<usize, ()> {
        Ok(0)
    }
    fn unset_breakpoint(&mut self, idx: usize) -> Result<(), ()> {
        self.unset.push(idx);
        Ok(())
    }
    fn get_breakpoints(&self) -> [Option<u16>; 10] {
        [Some(1); 10]
    }
    fn set_memory_watchpoint(&mut self, addr: u16) -> Result<usize, ()> {
        self.watches.push(addr);
        Ok(0)
    }
    fn unset_memory_watchpoint(&mut self, _idx: usize) -> Result<(), ()> {
        Ok(())
    }
    fn get_memory_watchpoints(&self) -> [Option<(u16, u16)>; 10] {
        [None; 10]
    }
    fn set_depth_condition(&mut self, _c: UnifiedRange<u64>) -> Result<Option<UnifiedRange<u64>>, ()> {
        Err(())
    }
    fn unset_depth_condition(&mut self) -> Option<UnifiedRange<u64>> {
        None
    }
    fn get_depth(&self) -> Result<u64, ()> {
        Err(())
    }
    fn run_until_event(&mut self) {
        self.runs += 1;
    }
    fn tick(&mut self) -> usize {
        0
    }
    fn step(&mut self) -> Option<Event> {
        None
    }
    fn pause(&mut self) {}
    fn get_state(&self) -> State {
        State::Halted
    }
    fn reset(&mut self) {}
    fn get_adc_states(&self) -> AdcPinArr<AdcState> {
        AdcPinArr([AdcState::Disabled; 6])
    }
    fn get_adc_readings(&self) -> AdcPinArr<Result<u8, AdcReadError>> {
        AdcPinArr([Ok(0); 6])
    }
    fn get_timer_modes(&self) -> TimerArr<TimerMode> {
        TimerArr([TimerMode::SingleShot; 2])
    }
    fn get_timer_states(&self) -> TimerArr<TimerState> {
        TimerArr([TimerState::Disabled; 2])
    }
    fn get_pwm_states(&self) -> PwmPinArr<PwmState> {
        PwmPinArr([PwmState::Disabled; 2])
    }
    fn get_pwm_config(&self) -> PwmPinArr<u8> {
        PwmPinArr([0; 2])
    }
    fn get_clock(&self) -> u16 {
        0
    }
    fn get_device_info(&self) -> DeviceInfo {
        lc3_traits::control::control::default_device_info(Identifier::empty(), Version::empty(), 0)
    }
    fn get_program_metadata(&self) -> ProgramMetadata {
        ProgramMetadata::empty()
    }
    fn set_program_metadata(&mut self, _m: ProgramMetadata) {}
}

#[test]
fn requests_get_their_replies() {
    let mut p = Probe::default();
    assert_eq!(client_reply(&mut p, Message::SET_PC(0x3000)), ClientReply::Send(Message::SET_PC_SUCCESS));
    assert_eq!(client_reply(&mut p, Message::GET_PC), ClientReply::Send(Message::GET_PC_RETURN_VAL(0x3000)));
    assert_eq!(client_reply(&mut p, Message::READ_WORD(4)), ClientReply::Send(Message::READ_WORD_RETURN_VAL(5)));
    assert_eq!(client_reply(&mut p, Message::GET_REGISTER(Reg::R2)), ClientReply::Send(Message::GET_REGISTER_RETURN_VAL(11)));
    assert_eq!(client_reply(&mut p, Message::GET_STATE), ClientReply::Send(Message::GET_STATE_RETURN_VAL(State::Halted)));
    assert_eq!(client_reply(&mut p, Message::GET_BREAKPOINTS), ClientReply::Send(Message::GET_BREAKPOINTS_RETURN_VAL([Some(1); 10])));
    assert_eq!(client_reply(&mut p, Message::RUN_UNTIL_EVENT), ClientReply::Send(Message::ISSUED_RUN_UNTIL_EVENT));
    assert_eq!(p.runs, 1);
    assert_eq!(client_reply(&mut p, Message::GET_MAX_BREAKPOINTS), ClientReply::Nothing);
    assert_eq!(client_reply(&mut p, Message::GET_MEMORY_WATCHES), ClientReply::Nothing);
    assert_eq!(client_reply(&mut p, Message::GET_PC_RETURN_VAL(1)), ClientReply::Nothing);
    assert_eq!(client_reply(&mut p, Message::STEP_SUCCESSFUL), ClientReply::Unexpected);
}

#[test]
fn memory_watches_land_at_the_requested_address() {
    let mut p = Probe::default();
    assert_eq!(client_reply(&mut p, Message::SET_MEMORY_WATCH(0x4000)), ClientReply::Send(Message::SET_MEMORY_WATCH_SUCCESS));
    assert_eq!(p.watches, vec![0x4000]);
    execute_signal(&mut p, Signal::SET_MEMORY_WATCH(7));
    execute_signal(&mut p, Signal::UNSET_BREAKPOINT(3));
    assert_eq!(p.watches, vec![0x4000, 7]);
    assert_eq!(p.unset, vec![3]);
    execute_signal(&mut p, Signal::SET_PC(0x3100));
    assert_eq!(p.pc, 0x3100);
}
