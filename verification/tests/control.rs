use lc3_traits::control::control::{default_device_info, Control, Event, State, MAX_BREAKPOINTS};
use lc3_traits::control::ext::{DepthBreakpoint, StepControl};
use lc3_traits::control::load::{
    FinishPageWriteError, LoadApiSession, Offset, PageChunkError, PageIndex, PageWriteStart,
    StartPageWriteError,
};
use lc3_traits::control::metadata::{DeviceInfo, Identifier, ProgramMetadata, Version};
use lc3_traits::control::ranges::{Bound, UnifiedRange};
use lc3_traits::control::rpc::controller::{classify_response, Received};
use lc3_traits::control::rpc::device::{after_run_poll, handle_request, DeviceAction};
use lc3_traits::control::rpc::messages::{is_answer, RequestMessage, ResponseMessage};
use lc3_traits::control::snapshot::Snapshot;
use lc3_traits::isa::{Reg, PSR};
use lc3_traits::peripherals::adc::{AdcPinArr, AdcReadError, AdcState};
use lc3_traits::peripherals::pwm::{PwmPinArr, PwmState};
use lc3_traits::peripherals::timers::{TimerArr, TimerMode, TimerState};
use core::ops::RangeBounds;

struct Sim {
    pc: u16,
    regs: [u16; 8],
    mem: Vec<u16>,
    depth: Result<u64, ()>,
    cond: Option<UnifiedRange<u64>>,
    state: State,
    meta: ProgramMetadata,
    runs: usize,
}

impl Sim {
    fn new() -> Self {
        Sim {
            pc: 0x3000,
            regs: [0, 1, 2, 3, 4, 5, 6, 7],
            mem: vec![0; 65536],
            depth: Ok(3),
            cond: None,
            state: State::Paused,
            meta: ProgramMetadata::empty(),
            runs: 0,
        }
    }
}

fn reg_idx(r: Reg) -> usize {
    match r {
        Reg::R0 => 0,
        Reg::R1 => 1,
        Reg::R2 => 2,
        Reg::R3 => 3,
        Reg::R4 => 4,
        Reg::R5 => 5,
        Reg::R6 => 6,
        Reg::R7 => 7,
    }
}

impl Control for Sim {
    type EventFuture = usize;

    fn depth_condition_set(
        &self,
        after: Self,
        condition: UnifiedRange<u64>,
        r: Result<Option<UnifiedRange<u64>>, ()>,
    ) -> bool {
        after.cond == Some(condition) && r == Ok(self.cond)
    }

    fn pc_set(&self, addr: u16, after: &Self) -> bool {
        after.pc == addr
    }
    fn register_set(&self, reg: Reg, data: u16, after: &Self) -> bool {
        after.regs[reg_idx(reg)] == data
    }
    fn word_written(&self, addr: u16, word: u16, after: &Self) -> bool {
        after.mem[addr as usize] == word
    }
    fn breakpoint_set(&self, _addr: u16, _after: &Self, r: Result<usize, ()>) -> bool {
        r == Ok(0)
    }
    fn breakpoint_unset(&self, _idx: usize, _after: &Self, r: Result<(), ()>) -> bool {
        r.is_err()
    }
    fn watchpoint_set(&self, _addr: u16, _after: &Self, r: Result<usize, ()>) -> bool {
        r == Ok(1)
    }
    fn watchpoint_unset(&self, _idx: usize, _after: &Self, r: Result<(), ()>) -> bool {
        r.is_ok()
    }
    fn run_started(&self, after: &Self, r: usize) -> bool {
        after.runs == self.runs + 1 && r == after.runs && after.state == State::RunningUntilEvent
    }
    fn stepped(&self, after: &Self, r: Option<Event>) -> bool {
        after.pc == self.pc + 1 && r.is_none()
    }
    fn paused(&self, after: &Self) -> bool {
        after.state == State::Paused
    }
    fn page_write_started(
        &self,
        _page: LoadApiSession<PageWriteStart>,
        _checksum: u64,
        _after: &Self,
        r: Result<LoadApiSession<PageIndex>, StartPageWriteError>,
    ) -> bool {
        r.is_err()
    }
    fn page_chunk_sent(
        &self,
        _offset: LoadApiSession<Offset>,
        _chunk: [u16; 8],
        _after: &Self,
        r: Result<(), PageChunkError>,
    ) -> bool {
        r.is_err()
    }
    fn page_write_finished(
        &self,
        _page: LoadApiSession<PageIndex>,
        _after: &Self,
        r: Result<(), FinishPageWriteError>,
    ) -> bool {
        r.is_err()
    }
    fn depth_condition_unset(&self, after: &Self, r: Option<UnifiedRange<u64>>) -> bool {
        after.cond.is_none() && r == self.cond
    }
    fn machine_reset(&self, after: &Self) -> bool {
        after.pc == 0x3000
    }
    fn program_metadata_set(&self, metadata: ProgramMetadata, after: &Self) -> bool {
        after.meta == metadata
    }

    fn get_pc(&self) -> u16 {
        self.pc
    }
    fn set_pc(&mut self, addr: u16) {
        self.pc = addr;
    }
    fn get_register(&self, reg: Reg) -> u16 {
        self.regs[reg_idx(reg)]
    }
    fn set_register(&mut self, reg: Reg, data: u16) {
        self.regs[reg_idx(reg)] = data;
    }
    fn read_word(&self, addr: u16) -> u16 {
        self.mem[addr as usize]
    }
    fn write_word(&mut self, addr: u16, word: u16) {
        self.mem[addr as usize] = word;
    }
    fn start_page_write(
        &mut self,
        _page: LoadApiSession<PageWriteStart>,
        _checksum: u64,
    ) -> Result<LoadApiSession<PageIndex>, StartPageWriteError> {
        Err(StartPageWriteError::UnfinishedSessionExists { unfinished_page: 0 })
    }
    fn send_page_chunk(&mut self, _offset: LoadApiSession<Offset>, _chunk: [u16; 8]) -> Result<(), PageChunkError> {
        Err(PageChunkError::NoCurrentSession)
    }
    fn finish_page_write(&mut self, _page: LoadApiSession<PageIndex>) -> Result<(), FinishPageWriteError> {
        Err(FinishPageWriteError::NoCurrentSession)
    }
    fn set_breakpoint(&mut self, _addr: u16) -> Result<usize, ()> {
        Ok(0)
    }
    fn unset_breakpoint(&mut self, _idx: usize) -> Result<(), ()> {
        Err(())
    }
    fn get_breakpoints(&self) -> [Option<u16>; 10] {
        [None; 10]
    }
    fn set_memory_watchpoint(&mut self, _addr: u16) -> Result<usize, ()> {
        Ok(1)
    }
    fn unset_memory_watchpoint(&mut self, _idx: usize) -> Result<(), ()> {
        Ok(())
    }
    fn get_memory_watchpoints(&self) -> [Option<(u16, u16)>; 10] {
        [None; 10]
    }
    fn set_depth_condition(&mut self, condition: UnifiedRange<u64>) -> Result<Option<UnifiedRange<u64>>, ()> {
        Ok(self.cond.replace(condition))
    }
    fn unset_depth_condition(&mut self) -> Option<UnifiedRange<u64>> {
        self.cond.take()
    }
    fn get_depth(&self) -> Result<u64, ()> {
        self.depth
    }
    fn run_until_event(&mut self) -> usize {
        self.runs += 1;
        self.state = State::RunningUntilEvent;
        self.runs
    }
    fn tick(&mut self) -> usize {
        0
    }
    fn step(&mut self) -> Option<Event> {
        self.pc += 1;
        None
    }
    fn pause(&mut self) {
        self.state = State::Paused;
    }
    fn get_state(&self) -> State {
        self.state
    }
    fn reset(&mut self) {
        self.pc = 0x3000;
    }
    fn get_adc_states(&self) -> AdcPinArr<AdcState> {
        AdcPinArr([AdcState::Disabled; 6])
    }
    fn get_adc_readings(&self) -> AdcPinArr<Result<u8, AdcReadError>> {
        AdcPinArr([Ok(0); 6])
    }
    fn get_timer_modes(&self) -> TimerArr<TimerMode> {
        TimerArr([TimerMode::SingleShot; 2])
    }
    fn get_timer_states(&self) -> TimerArr<TimerState> {
        TimerArr([TimerState::Disabled; 2])
    }
    fn get_pwm_states(&self) -> PwmPinArr<PwmState> {
        PwmPinArr([PwmState::Disabled; 2])
    }
    fn get_pwm_config(&self) -> PwmPinArr<u8> {
        PwmPinArr([0; 2])
    }
    fn get_clock(&self) -> u16 {
        42
    }
    fn get_device_info(&self) -> DeviceInfo {
        default_device_info(self.id(), Version::new(0, 1, 0, None), 9)
    }
    fn get_program_metadata(&self) -> ProgramMetadata {
        self.meta.clone()
    }
    fn set_program_metadata(&mut self, metadata: ProgramMetadata) {
        self.meta = metadata;
    }
}

fn mpsc() -> (Identifier, Version) {
    (Identifier::new_from_str("MPSC").unwrap(), Version::new(0, 1, 0, None))
}

fn respond(sim: &mut Sim, req: RequestMessage) -> ResponseMessage {
    let (id, ver) = mpsc();
    match handle_request(sim, req, false, id, ver) {
        DeviceAction::Respond(r) => r,
        _ => panic!("expected a response"),
    }
}

#[test]
fn registers_psr_and_pc_are_read_in_order() {
    let mut sim = Sim::new();
    sim.mem[PSR as usize] = 0x8002;
    let (regs, psr, pc) = sim.get_registers_psr_and_pc();
    assert_eq!(regs, [0, 1, 2, 3, 4, 5, 6, 7]);
    assert_eq!(psr, 0x8002);
    assert_eq!(pc, 0x3000);
}

#[test]
fn default_methods_of_control() {
    let sim = Sim::new();
    assert_eq!(sim.get_max_breakpoints(), MAX_BREAKPOINTS);
    assert_eq!(sim.get_max_memory_watchpoints(), 10);
    assert_eq!(sim.id().as_str(), "????");
}

#[test]
fn device_answers_each_request_with_its_kind() {
    let mut sim = Sim::new();
    assert_eq!(respond(&mut sim, RequestMessage::GetPc), ResponseMessage::GetPc(0x3000));
    assert_eq!(respond(&mut sim, RequestMessage::SetPc { addr: 0x4000 }), ResponseMessage::SetPc);
    assert_eq!(sim.pc, 0x4000);
    assert_eq!(respond(&mut sim, RequestMessage::GetRegister { reg: Reg::R5 }), ResponseMessage::GetRegister(5));
    assert_eq!(
        respond(&mut sim, RequestMessage::SetRegister { reg: Reg::R5, data: 99 }),
        ResponseMessage::SetRegister
    );
    assert_eq!(sim.regs[5], 99);
    assert_eq!(
        respond(&mut sim, RequestMessage::WriteWord { addr: 0x3001, word: 7 }),
        ResponseMessage::WriteWord
    );
    assert_eq!(respond(&mut sim, RequestMessage::ReadWord { addr: 0x3001 }), ResponseMessage::ReadWord(7));
    assert_eq!(respond(&mut sim, RequestMessage::GetClock), ResponseMessage::GetClock(42));
    assert_eq!(respond(&mut sim, RequestMessage::GetDepth), ResponseMessage::GetDepth(Ok(3)));
    assert_eq!(respond(&mut sim, RequestMessage::GetState), ResponseMessage::GetState(State::Paused));
    assert_eq!(respond(&mut sim, RequestMessage::Step), ResponseMessage::Step(None));
    assert_eq!(sim.pc, 0x4001);
    let cond = UnifiedRange { start: Bound::Unbounded, end: Bound::Excludes(3u64) };
    assert_eq!(
        respond(&mut sim, RequestMessage::SetDepthCondition { condition: cond }),
        ResponseMessage::SetDepthCondition(Ok(None))
    );
    assert_eq!(
        respond(&mut sim, RequestMessage::UnsetDepthCondition),
        ResponseMessage::UnsetDepthCondition(Some(cond))
    );
    let meta = ProgramMetadata::empty();
    assert_eq!(
        respond(&mut sim, RequestMessage::SetProgramMetadata { metadata: meta.clone() }),
        ResponseMessage::SetProgramMetadata
    );
    assert_eq!(respond(&mut sim, RequestMessage::GetProgramMetadata), ResponseMessage::GetProgramMetadata(meta));
}

#[test]
fn device_starts_one_run_at_a_time() {
    let mut sim = Sim::new();
    let (id, ver) = mpsc();
    match handle_request(&mut sim, RequestMessage::RunUntilEvent, false, id, ver.clone()) {
        DeviceAction::Started(f) => assert_eq!(f, 1),
        _ => panic!("expected a started run"),
    }
    assert!(matches!(
        handle_request(&mut sim, RequestMessage::RunUntilEvent, true, id, ver),
        DeviceAction::RunAlreadyPending
    ));
    assert_eq!(sim.runs, 1);
}

#[test]
fn device_adds_its_transport_to_the_device_info() {
    let mut sim = Sim::new();
    let (id, ver) = mpsc();
    match respond(&mut sim, RequestMessage::GetDeviceInfo) {
        ResponseMessage::GetDeviceInfo(info) => {
            assert_eq!(info.name.as_str(), "????");
            assert_eq!(info.type_id, 9);
            assert_eq!(info.proxies[0], Some((id, ver)));
            assert_eq!(info.proxies[1], None);
        },
        _ => panic!("wrong response"),
    }
}

#[test]
fn messages_clone_exactly() {
    let session = LoadApiSession::new(0x30).unwrap();
    let req = RequestMessage::StartPageWrite { page: session, checksum: 5 };
    assert_eq!(req.clone(), req);
    let resp = ResponseMessage::GetRegistersPsrAndPc(([1, 2, 3, 4, 5, 6, 7, 8], 9, 10));
    assert_eq!(resp.clone(), resp);
    let info = default_device_info(Identifier::new_from_str("ABCD").unwrap(), Version::new(1, 2, 3, None), 4)
        .add_proxy(Identifier::new_from_str("MPSC").unwrap(), Version::new(0, 0, 1, None))
        .unwrap();
    let resp = ResponseMessage::GetDeviceInfo(info);
    assert_eq!(resp.clone(), resp);
}

#[test]
fn answers_match_kinds() {
    assert!(is_answer(&RequestMessage::GetPc, &ResponseMessage::GetPc(0)));
    assert!(!is_answer(&RequestMessage::GetPc, &ResponseMessage::SetPc));
    assert!(is_answer(&RequestMessage::RunUntilEvent, &ResponseMessage::RunUntilEventAck));
    assert!(!is_answer(&RequestMessage::RunUntilEvent, &ResponseMessage::RunUntilEvent(Event::Halted)));
}

#[test]
fn controller_sorts_responses() {
    assert_eq!(
        classify_response(true, ResponseMessage::RunUntilEvent(Event::Interrupted)),
        Received::Event(Event::Interrupted)
    );
    assert_eq!(
        classify_response(false, ResponseMessage::RunUntilEvent(Event::Halted)),
        Received::UnrequestedEvent(Event::Halted)
    );
    assert_eq!(classify_response(true, ResponseMessage::Pause), Received::Response(ResponseMessage::Pause));
}

#[test]
fn depth_breakpoints_set_the_matching_condition() {
    let mut sim = Sim::new();
    assert_eq!(sim.step_out(), Ok(()));
    assert_eq!(sim.cond, Some(UnifiedRange { start: Bound::Unbounded, end: Bound::Excludes(3) }));
    assert_eq!(sim.step_in(), Ok(()));
    assert_eq!(sim.cond, Some(UnifiedRange { start: Bound::Includes(3), end: Bound::Unbounded }));
    assert_eq!(sim.step_over(), Ok(()));
    assert_eq!(sim.cond, Some(UnifiedRange { start: Bound::Unbounded, end: Bound::Includes(3) }));
    assert_eq!(sim.set_depth_breakpoint(DepthBreakpoint::StepOut), Ok(()));

    sim.depth = Err(());
    sim.cond = None;
    assert_eq!(sim.step_in(), Err(()));
    assert_eq!(sim.cond, None);
}

#[test]
fn ranges_convert() {
    let r: UnifiedRange<u8> = (2u8..5).into();
    assert_eq!(r, UnifiedRange { start: Bound::Includes(2), end: Bound::Excludes(5) });
    let r: UnifiedRange<u8> = (2u8..).into();
    assert_eq!(r, UnifiedRange { start: Bound::Includes(2), end: Bound::Unbounded });
    let r: UnifiedRange<u8> = (..5u8).into();
    assert_eq!(r, UnifiedRange { start: Bound::Unbounded, end: Bound::Excludes(5) });
    let r: UnifiedRange<u8> = (..=5u8).into();
    assert_eq!(r, UnifiedRange { start: Bound::Unbounded, end: Bound::Includes(5) });
    let r: UnifiedRange<u8> = (..).into();
    assert_eq!(r, UnifiedRange { start: Bound::Unbounded, end: Bound::Unbounded });
    let r: UnifiedRange<u8> = (2u8..=5).into();
    assert_eq!(r, UnifiedRange { start: Bound::Includes(2), end: Bound::Includes(5) });
    let mut it = 2u8..=3;
    it.next();
    it.next();
    let r: UnifiedRange<u8> = it.into();
    assert_eq!(r, UnifiedRange { start: Bound::Includes(3), end: Bound::Excludes(3) });
    assert_eq!(r.start_bound(), core::ops::Bound::Included(&3));
    assert_eq!(r.end_bound(), core::ops::Bound::Excluded(&3));
    assert_eq!(Bound::from(core::ops::Bound::Included(&4u8)), Bound::Includes(4));
    assert_eq!(Bound::<u8>::from(core::ops::Bound::Unbounded), Bound::Unbounded);
    let word = String::from("end");
    assert_eq!(Bound::from(core::ops::Bound::Excluded(&word)), Bound::Excludes(String::from("end")));
    let b = Bound::Includes(String::from("x"));
    assert_eq!(Bound::from(b.as_core_bound()), b);
    let r: UnifiedRange<String> = (String::from("a")..String::from("c")).into();
    assert_eq!(r.start, Bound::Includes(String::from("a")));
    assert_eq!(r.end, Bound::Excludes(String::from("c")));
}

#[test]
fn load_sessions() {
    assert_eq!(
        LoadApiSession::new(0xFE).unwrap_err(),
        StartPageWriteError::InvalidPage { page: 0xFE }
    );
    assert!(LoadApiSession::new(0xFD).is_ok());
}

#[test]
fn clone_types_snapshot_by_value() {
    let mut x: u32 = 5;
    let snap = x.record().unwrap();
    x = 9;
    assert_eq!(x, 9);
    x.restore(snap).unwrap();
    assert_eq!(x, 5);
}

#[test]
fn a_pending_run_reports_its_event_once_ready() {
    let (kept, reply) = after_run_poll(7usize, None);
    assert_eq!(kept, Some(7));
    assert!(reply.is_none());
    let (kept, reply) = after_run_poll(7usize, Some(Event::Halted));
    assert_eq!(kept, None);
    assert!(matches!(reply, Some(ResponseMessage::RunUntilEvent(Event::Halted))));
}
