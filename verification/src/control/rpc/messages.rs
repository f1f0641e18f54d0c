//! The messages that carry control calls: one request per proxied method
//! of the control interface, and one response per request.

use vstd::prelude::*;
use crate::isa::{Addr, Reg, Word};
use crate::control::control::{Event, State};
use crate::control::load::{
    LoadApiSession, PageWriteStart, PageIndex, Offset, StartPageWriteError, PageChunkError,
    FinishPageWriteError,
};
use crate::control::metadata::{ProgramMetadata, DeviceInfo, Version, Identifier, Capabilities};
use crate::control::ranges::UnifiedRange;
use crate::peripherals::adc::{AdcPinArr, AdcState, AdcReadError};
use crate::peripherals::pwm::{PwmPinArr, PwmState};
use crate::peripherals::timers::{TimerArr, TimerMode, TimerState};

verus! {

/// A call on the control interface (every method but `tick` and `id`).
#[derive(Debug, PartialEq, Eq)]
pub enum RequestMessage {
    GetPc,
    SetPc { addr: Addr },
    GetRegister { reg: Reg },
    SetRegister { reg: Reg, data: Word },
    GetRegistersPsrAndPc,
    ReadWord { addr: Addr },
    WriteWord { addr: Addr, word: Word },
    StartPageWrite { page: LoadApiSession<PageWriteStart>, checksum: u64 },
    SendPageChunk { offset: LoadApiSession<Offset>, chunk: [Word; 8] },
    FinishPageWrite { page: LoadApiSession<PageIndex> },
    SetBreakpoint { addr: Addr },
    UnsetBreakpoint { idx: usize },
    GetBreakpoints,
    GetMaxBreakpoints,
    SetMemoryWatchpoint { addr: Addr },
    UnsetMemoryWatchpoint { idx: usize },
    GetMemoryWatchpoints,
    GetMaxMemoryWatchpoints,
    SetDepthCondition { condition: UnifiedRange<u64> },
    UnsetDepthCondition,
    GetDepth,
    RunUntilEvent,
    Step,
    Pause,
    GetState,
    Reset,
    GetAdcStates,
    GetAdcReadings,
    GetTimerModes,
    GetTimerStates,
    GetPwmStates,
    GetPwmConfig,
    GetClock,
    GetDeviceInfo,
    GetProgramMetadata,
    SetProgramMetadata { metadata: ProgramMetadata },
}

/// The answer to a call on the control interface. A run request is
/// answered twice: `RunUntilEventAck` at once and `RunUntilEvent` when the
/// event comes.
#[derive(Debug, PartialEq, Eq)]
pub enum ResponseMessage {
    GetPc(Addr),
    SetPc,
    GetRegister(Word),
    SetRegister,
    GetRegistersPsrAndPc(([Word; 8], Word, Word)),
    ReadWord(Word),
    WriteWord,
    StartPageWrite(Result<LoadApiSession<PageIndex>, StartPageWriteError>),
    SendPageChunk(Result<(), PageChunkError>),
    FinishPageWrite(Result<(), FinishPageWriteError>),
    SetBreakpoint(Result<usize, ()>),
    UnsetBreakpoint(Result<(), ()>),
    GetBreakpoints([Option<Addr>; 10]),
    GetMaxBreakpoints(usize),
    SetMemoryWatchpoint(Result<usize, ()>),
    UnsetMemoryWatchpoint(Result<(), ()>),
    GetMemoryWatchpoints([Option<(Addr, Word)>; 10]),
    GetMaxMemoryWatchpoints(usize),
    SetDepthCondition(Result<Option<UnifiedRange<u64>>, ()>),
    UnsetDepthCondition(Option<UnifiedRange<u64>>),
    GetDepth(Result<u64, ()>),
    RunUntilEventAck,
    RunUntilEvent(Event),
    Step(Option<Event>),
    Pause,
    GetState(State),
    Reset,
    GetAdcStates(AdcPinArr<AdcState>),
    GetAdcReadings(AdcPinArr<Result<u8, AdcReadError>>),
    GetTimerModes(TimerArr<TimerMode>),
    GetTimerStates(TimerArr<TimerState>),
    GetPwmStates(PwmPinArr<PwmState>),
    GetPwmConfig(PwmPinArr<u8>),
    GetClock(Word),
    GetDeviceInfo(DeviceInfo),
    GetProgramMetadata(ProgramMetadata),
    SetProgramMetadata,
}

/// Whether `resp` is the immediate answer to `req`: the response of the
/// same kind (for a run request, its acknowledgement).
pub open spec fn answers(req: RequestMessage, resp: ResponseMessage) -> bool {
    match req {
        RequestMessage::GetPc => resp is GetPc,
        RequestMessage::SetPc { .. } => resp is SetPc,
        RequestMessage::GetRegister { .. } => resp is GetRegister,
        RequestMessage::SetRegister { .. } => resp is SetRegister,
        RequestMessage::GetRegistersPsrAndPc => resp is GetRegistersPsrAndPc,
        RequestMessage::ReadWord { .. } => resp is ReadWord,
        RequestMessage::WriteWord { .. } => resp is WriteWord,
        RequestMessage::StartPageWrite { .. } => resp is StartPageWrite,
        RequestMessage::SendPageChunk { .. } => resp is SendPageChunk,
        RequestMessage::FinishPageWrite { .. } => resp is FinishPageWrite,
        RequestMessage::SetBreakpoint { .. } => resp is SetBreakpoint,
        RequestMessage::UnsetBreakpoint { .. } => resp is UnsetBreakpoint,
        RequestMessage::GetBreakpoints => resp is GetBreakpoints,
        RequestMessage::GetMaxBreakpoints => resp is GetMaxBreakpoints,
        RequestMessage::SetMemoryWatchpoint { .. } => resp is SetMemoryWatchpoint,
        RequestMessage::UnsetMemoryWatchpoint { .. } => resp is UnsetMemoryWatchpoint,
        RequestMessage::GetMemoryWatchpoints => resp is GetMemoryWatchpoints,
        RequestMessage::GetMaxMemoryWatchpoints => resp is GetMaxMemoryWatchpoints,
        RequestMessage::SetDepthCondition { .. } => resp is SetDepthCondition,
        RequestMessage::UnsetDepthCondition => resp is UnsetDepthCondition,
        RequestMessage::GetDepth => resp is GetDepth,
        RequestMessage::RunUntilEvent => resp is RunUntilEventAck,
        RequestMessage::Step => resp is Step,
        RequestMessage::Pause => resp is Pause,
        RequestMessage::GetState => resp is GetState,
        RequestMessage::Reset => resp is Reset,
        RequestMessage::GetAdcStates => resp is GetAdcStates,
        RequestMessage::GetAdcReadings => resp is GetAdcReadings,
        RequestMessage::GetTimerModes => resp is GetTimerModes,
        RequestMessage::GetTimerStates => resp is GetTimerStates,
        RequestMessage::GetPwmStates => resp is GetPwmStates,
        RequestMessage::GetPwmConfig => resp is GetPwmConfig,
        RequestMessage::GetClock => resp is GetClock,
        RequestMessage::GetDeviceInfo => resp is GetDeviceInfo,
        RequestMessage::GetProgramMetadata => resp is GetProgramMetadata,
        RequestMessage::SetProgramMetadata { .. } => resp is SetProgramMetadata,
    }
}

/// Whether `resp` answers `req`; see `answers`.
pub fn is_answer(req: &RequestMessage, resp: &ResponseMessage) -> (r: bool)
    ensures
        r == answers(*req, *resp),
{
    match req {
        RequestMessage::GetPc => matches!(resp, ResponseMessage::GetPc(..)),
        RequestMessage::SetPc { .. } => matches!(resp, ResponseMessage::SetPc),
        RequestMessage::GetRegister { .. } => matches!(resp, ResponseMessage::GetRegister(..)),
        RequestMessage::SetRegister { .. } => matches!(resp, ResponseMessage::SetRegister),
        RequestMessage::GetRegistersPsrAndPc => matches!(resp, ResponseMessage::GetRegistersPsrAndPc(..)),
        RequestMessage::ReadWord { .. } => matches!(resp, ResponseMessage::ReadWord(..)),
        RequestMessage::WriteWord { .. } => matches!(resp, ResponseMessage::WriteWord),
        RequestMessage::StartPageWrite { .. } => matches!(resp, ResponseMessage::StartPageWrite(..)),
        RequestMessage::SendPageChunk { .. } => matches!(resp, ResponseMessage::SendPageChunk(..)),
        RequestMessage::FinishPageWrite { .. } => matches!(resp, ResponseMessage::FinishPageWrite(..)),
        RequestMessage::SetBreakpoint { .. } => matches!(resp, ResponseMessage::SetBreakpoint(..)),
        RequestMessage::UnsetBreakpoint { .. } => matches!(resp, ResponseMessage::UnsetBreakpoint(..)),
        RequestMessage::GetBreakpoints => matches!(resp, ResponseMessage::GetBreakpoints(..)),
        RequestMessage::GetMaxBreakpoints => matches!(resp, ResponseMessage::GetMaxBreakpoints(..)),
        RequestMessage::SetMemoryWatchpoint { .. } => matches!(resp, ResponseMessage::SetMemoryWatchpoint(..)),
        RequestMessage::UnsetMemoryWatchpoint { .. } => matches!(resp, ResponseMessage::UnsetMemoryWatchpoint(..)),
        RequestMessage::GetMemoryWatchpoints => matches!(resp, ResponseMessage::GetMemoryWatchpoints(..)),
        RequestMessage::GetMaxMemoryWatchpoints => matches!(resp, ResponseMessage::GetMaxMemoryWatchpoints(..)),
        RequestMessage::SetDepthCondition { .. } => matches!(resp, ResponseMessage::SetDepthCondition(..)),
        RequestMessage::UnsetDepthCondition => matches!(resp, ResponseMessage::UnsetDepthCondition(..)),
        RequestMessage::GetDepth => matches!(resp, ResponseMessage::GetDepth(..)),
        RequestMessage::RunUntilEvent => matches!(resp, ResponseMessage::RunUntilEventAck),
        RequestMessage::Step => matches!(resp, ResponseMessage::Step(..)),
        RequestMessage::Pause => matches!(resp, ResponseMessage::Pause),
        RequestMessage::GetState => matches!(resp, ResponseMessage::GetState(..)),
        RequestMessage::Reset => matches!(resp, ResponseMessage::Reset),
        RequestMessage::GetAdcStates => matches!(resp, ResponseMessage::GetAdcStates(..)),
        RequestMessage::GetAdcReadings => matches!(resp, ResponseMessage::GetAdcReadings(..)),
        RequestMessage::GetTimerModes => matches!(resp, ResponseMessage::GetTimerModes(..)),
        RequestMessage::GetTimerStates => matches!(resp, ResponseMessage::GetTimerStates(..)),
        RequestMessage::GetPwmStates => matches!(resp, ResponseMessage::GetPwmStates(..)),
        RequestMessage::GetPwmConfig => matches!(resp, ResponseMessage::GetPwmConfig(..)),
        RequestMessage::GetClock => matches!(resp, ResponseMessage::GetClock(..)),
        RequestMessage::GetDeviceInfo => matches!(resp, ResponseMessage::GetDeviceInfo(..)),
        RequestMessage::GetProgramMetadata => matches!(resp, ResponseMessage::GetProgramMetadata(..)),
        RequestMessage::SetProgramMetadata { .. } => matches!(resp, ResponseMessage::SetProgramMetadata),
    }
}

/// An exact copy of a version.
fn copy_version(v: &Version) -> (r: Version)
    ensures
        r == *v,
{
    Version { major: v.major, minor: v.minor, patch: v.patch, pre: v.pre }
}

/// An exact copy of a proxy entry.
fn copy_proxy(p: &Option<(Identifier, Version)>) -> (r: Option<(Identifier, Version)>)
    ensures
        r == *p,
{
    match p {
        Some((name, version)) => Some((*name, copy_version(version))),
        None => None,
    }
}

/// An exact copy of device information.
fn copy_device_info(d: &DeviceInfo) -> (r: DeviceInfo)
    ensures
        r == *d,
{
    let proxies = [copy_proxy(&d.proxies[0]), copy_proxy(&d.proxies[1]), copy_proxy(&d.proxies[2])];
    assert(proxies =~= d.proxies);
    DeviceInfo {
        name: d.name,
        version: copy_version(&d.version),
        type_id: d.type_id,
        capabilities: Capabilities { disk: d.capabilities.disk, display: d.capabilities.display },
        proxies,
    }
}

/// An exact copy of program metadata.
fn copy_metadata(m: &ProgramMetadata) -> (r: ProgramMetadata)
    ensures
        r == *m,
{
    ProgramMetadata { name: m.name, id: m.id, last_modified: m.last_modified }
}

impl Clone for RequestMessage {
    /// An exact copy, load session tokens included.
    fn clone(&self) -> (r: Self)
        ensures
            r == *self,
    {
        match self {
            RequestMessage::GetPc => RequestMessage::GetPc,
            RequestMessage::SetPc { addr } => RequestMessage::SetPc { addr: *addr },
            RequestMessage::GetRegister { reg } => RequestMessage::GetRegister { reg: *reg },
            RequestMessage::SetRegister { reg, data } => RequestMessage::SetRegister { reg: *reg, data: *data },
            RequestMessage::GetRegistersPsrAndPc => RequestMessage::GetRegistersPsrAndPc,
            RequestMessage::ReadWord { addr } => RequestMessage::ReadWord { addr: *addr },
            RequestMessage::WriteWord { addr, word } => RequestMessage::WriteWord { addr: *addr, word: *word },
            RequestMessage::StartPageWrite { page, checksum } => RequestMessage::StartPageWrite {
                page: page.duplicate(),
                checksum: *checksum,
            },
            RequestMessage::SendPageChunk { offset, chunk } => RequestMessage::SendPageChunk {
                offset: offset.duplicate(),
                chunk: *chunk,
            },
            RequestMessage::FinishPageWrite { page } => RequestMessage::FinishPageWrite { page: page.duplicate() },
            RequestMessage::SetBreakpoint { addr } => RequestMessage::SetBreakpoint { addr: *addr },
            RequestMessage::UnsetBreakpoint { idx } => RequestMessage::UnsetBreakpoint { idx: *idx },
            RequestMessage::GetBreakpoints => RequestMessage::GetBreakpoints,
            RequestMessage::GetMaxBreakpoints => RequestMessage::GetMaxBreakpoints,
            RequestMessage::SetMemoryWatchpoint { addr } => RequestMessage::SetMemoryWatchpoint { addr: *addr },
            RequestMessage::UnsetMemoryWatchpoint { idx } => RequestMessage::UnsetMemoryWatchpoint { idx: *idx },
            RequestMessage::GetMemoryWatchpoints => RequestMessage::GetMemoryWatchpoints,
            RequestMessage::GetMaxMemoryWatchpoints => RequestMessage::GetMaxMemoryWatchpoints,
            RequestMessage::SetDepthCondition { condition } => RequestMessage::SetDepthCondition { condition: *condition },
            RequestMessage::UnsetDepthCondition => RequestMessage::UnsetDepthCondition,
            RequestMessage::GetDepth => RequestMessage::GetDepth,
            RequestMessage::RunUntilEvent => RequestMessage::RunUntilEvent,
            RequestMessage::Step => RequestMessage::Step,
            RequestMessage::Pause => RequestMessage::Pause,
            RequestMessage::GetState => RequestMessage::GetState,
            RequestMessage::Reset => RequestMessage::Reset,
            RequestMessage::GetAdcStates => RequestMessage::GetAdcStates,
            RequestMessage::GetAdcReadings => RequestMessage::GetAdcReadings,
            RequestMessage::GetTimerModes => RequestMessage::GetTimerModes,
            RequestMessage::GetTimerStates => RequestMessage::GetTimerStates,
            RequestMessage::GetPwmStates => RequestMessage::GetPwmStates,
            RequestMessage::GetPwmConfig => RequestMessage::GetPwmConfig,
            RequestMessage::GetClock => RequestMessage::GetClock,
            RequestMessage::GetDeviceInfo => RequestMessage::GetDeviceInfo,
            RequestMessage::GetProgramMetadata => RequestMessage::GetProgramMetadata,
            RequestMessage::SetProgramMetadata { metadata } => RequestMessage::SetProgramMetadata {
                metadata: copy_metadata(metadata),
            },
        }
    }
}

impl Clone for ResponseMessage {
    /// An exact copy, load session tokens included.
    fn clone(&self) -> (r: Self)
        ensures
            r == *self,
    {
        match self {
            ResponseMessage::GetPc(a) => ResponseMessage::GetPc(*a),
            ResponseMessage::SetPc => ResponseMessage::SetPc,
            ResponseMessage::GetRegister(w) => ResponseMessage::GetRegister(*w),
            ResponseMessage::SetRegister => ResponseMessage::SetRegister,
            ResponseMessage::GetRegistersPsrAndPc(t) => ResponseMessage::GetRegistersPsrAndPc(*t),
            ResponseMessage::ReadWord(w) => ResponseMessage::ReadWord(*w),
            ResponseMessage::WriteWord => ResponseMessage::WriteWord,
            ResponseMessage::StartPageWrite(r) => ResponseMessage::StartPageWrite(
                match r {
                    Ok(s) => Ok(s.duplicate()),
                    Err(e) => Err(*e),
                },
            ),
            ResponseMessage::SendPageChunk(r) => ResponseMessage::SendPageChunk(*r),
            ResponseMessage::FinishPageWrite(r) => ResponseMessage::FinishPageWrite(*r),
            ResponseMessage::SetBreakpoint(r) => ResponseMessage::SetBreakpoint(*r),
            ResponseMessage::UnsetBreakpoint(r) => ResponseMessage::UnsetBreakpoint(*r),
            ResponseMessage::GetBreakpoints(b) => ResponseMessage::GetBreakpoints(*b),
            ResponseMessage::GetMaxBreakpoints(i) => ResponseMessage::GetMaxBreakpoints(*i),
            ResponseMessage::SetMemoryWatchpoint(r) => ResponseMessage::SetMemoryWatchpoint(*r),
            ResponseMessage::UnsetMemoryWatchpoint(r) => ResponseMessage::UnsetMemoryWatchpoint(*r),
            ResponseMessage::GetMemoryWatchpoints(w) => ResponseMessage::GetMemoryWatchpoints(*w),
            ResponseMessage::GetMaxMemoryWatchpoints(i) => ResponseMessage::GetMaxMemoryWatchpoints(*i),
            ResponseMessage::SetDepthCondition(r) => ResponseMessage::SetDepthCondition(*r),
            ResponseMessage::UnsetDepthCondition(r) => ResponseMessage::UnsetDepthCondition(*r),
            ResponseMessage::GetDepth(r) => ResponseMessage::GetDepth(*r),
            ResponseMessage::RunUntilEventAck => ResponseMessage::RunUntilEventAck,
            ResponseMessage::RunUntilEvent(e) => ResponseMessage::RunUntilEvent(*e),
            ResponseMessage::Step(e) => ResponseMessage::Step(*e),
            ResponseMessage::Pause => ResponseMessage::Pause,
            ResponseMessage::GetState(s) => ResponseMessage::GetState(*s),
            ResponseMessage::Reset => ResponseMessage::Reset,
            ResponseMessage::GetAdcStates(s) => ResponseMessage::GetAdcStates(AdcPinArr(s.0)),
            ResponseMessage::GetAdcReadings(r) => ResponseMessage::GetAdcReadings(AdcPinArr(r.0)),
            ResponseMessage::GetTimerModes(m) => ResponseMessage::GetTimerModes(TimerArr(m.0)),
            ResponseMessage::GetTimerStates(s) => ResponseMessage::GetTimerStates(TimerArr(s.0)),
            ResponseMessage::GetPwmStates(s) => ResponseMessage::GetPwmStates(PwmPinArr(s.0)),
            ResponseMessage::GetPwmConfig(c) => ResponseMessage::GetPwmConfig(PwmPinArr(c.0)),
            ResponseMessage::GetClock(w) => ResponseMessage::GetClock(*w),
            ResponseMessage::GetDeviceInfo(d) => ResponseMessage::GetDeviceInfo(copy_device_info(d)),
            ResponseMessage::GetProgramMetadata(m) => ResponseMessage::GetProgramMetadata(copy_metadata(m)),
            ResponseMessage::SetProgramMetadata => ResponseMessage::SetProgramMetadata,
        }
    }
}

} // verus!
