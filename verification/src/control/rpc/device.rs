//! The device side of the control RPC: what a device does with one
//! request. The loop around it (receiving, decoding, polling the pending
//! run, encoding and sending) runs outside this library.

use vstd::prelude::*;
use crate::control::control::{Control, Event};
use crate::control::metadata::{DeviceInfo, Identifier, Version, first_free_proxy};
use super::messages::{RequestMessage, ResponseMessage, answers};

verus! {

/// What a device does with one request.
pub enum DeviceAction<F> {
    /// Send this response.
    Respond(ResponseMessage),
    /// A run was started: keep its future, and acknowledge the request with
    /// `ResponseMessage::RunUntilEventAck`.
    Started(F),
    /// A run was asked for while one is still pending.
    RunAlreadyPending,
    /// The device information has no free slot for this transport's proxy
    /// entry.
    TooManyProxies,
}

/// `info` with the proxy entry `(proxy, version)` in its first free slot.
pub open spec fn with_proxy(info: DeviceInfo, d: DeviceInfo, proxy: Identifier, version: Version) -> bool {
    &&& d == (DeviceInfo { proxies: d.proxies, ..info })
    &&& d.proxies@ == info.proxies@.update(first_free_proxy(info.proxies@), Some((proxy, version)))
}

/// Carries out `req` on `c`. `run_pending` says whether a run started
/// earlier has not yet produced its event; `proxy` and `proxy_version`
/// name the transport, which adds itself to the device information it
/// passes on.
///
/// Each request is answered with the response of its kind, holding what the
/// matching method of `c` returned; queries leave `c` as it was. A run is
/// started only when none is pending.
pub fn handle_request<C: Control>(
    c: &mut C,
    req: RequestMessage,
    run_pending: bool,
    proxy: Identifier,
    proxy_version: Version,
) -> (r: DeviceAction<C::EventFuture>)
    ensures
        r matches DeviceAction::Respond(resp) ==> answers(req, resp),
        match req {
            RequestMessage::GetPc => r matches DeviceAction::Respond(ResponseMessage::GetPc(v)) && call_ensures(C::get_pc, (&*old(c),), v) && *final(c) == *old(c),
            RequestMessage::SetPc { addr } => r matches DeviceAction::Respond(ResponseMessage::SetPc) && old(c).pc_set(addr, final(c)),
            RequestMessage::GetRegister { reg } => r matches DeviceAction::Respond(ResponseMessage::GetRegister(v)) && call_ensures(C::get_register, (&*old(c), reg,), v) && *final(c) == *old(c),
            RequestMessage::SetRegister { reg, data } => r matches DeviceAction::Respond(ResponseMessage::SetRegister) && old(c).register_set(reg, data, final(c)),
            RequestMessage::GetRegistersPsrAndPc => r matches DeviceAction::Respond(ResponseMessage::GetRegistersPsrAndPc(v)) && call_ensures(C::get_registers_psr_and_pc, (&*old(c),), v) && *final(c) == *old(c),
            RequestMessage::ReadWord { addr } => r matches DeviceAction::Respond(ResponseMessage::ReadWord(v)) && call_ensures(C::read_word, (&*old(c), addr,), v) && *final(c) == *old(c),
            RequestMessage::WriteWord { addr, word } => r matches DeviceAction::Respond(ResponseMessage::WriteWord) && old(c).word_written(addr, word, final(c)),
            RequestMessage::StartPageWrite { page, checksum } => r matches DeviceAction::Respond(ResponseMessage::StartPageWrite(res)) && old(c).page_write_started(page, checksum, final(c), res),
            RequestMessage::SendPageChunk { offset, chunk } => r matches DeviceAction::Respond(ResponseMessage::SendPageChunk(res)) && old(c).page_chunk_sent(offset, chunk, final(c), res),
            RequestMessage::FinishPageWrite { page } => r matches DeviceAction::Respond(ResponseMessage::FinishPageWrite(res)) && old(c).page_write_finished(page, final(c), res),
            RequestMessage::SetBreakpoint { addr } => r matches DeviceAction::Respond(ResponseMessage::SetBreakpoint(res)) && old(c).breakpoint_set(addr, final(c), res),
            RequestMessage::UnsetBreakpoint { idx } => r matches DeviceAction::Respond(ResponseMessage::UnsetBreakpoint(res)) && old(c).breakpoint_unset(idx, final(c), res),
            RequestMessage::GetBreakpoints => r matches DeviceAction::Respond(ResponseMessage::GetBreakpoints(v)) && call_ensures(C::get_breakpoints, (&*old(c),), v) && *final(c) == *old(c),
            RequestMessage::GetMaxBreakpoints => r matches DeviceAction::Respond(ResponseMessage::GetMaxBreakpoints(v)) && call_ensures(C::get_max_breakpoints, (&*old(c),), v) && *final(c) == *old(c),
            RequestMessage::SetMemoryWatchpoint { addr } => r matches DeviceAction::Respond(ResponseMessage::SetMemoryWatchpoint(res)) && old(c).watchpoint_set(addr, final(c), res),
            RequestMessage::UnsetMemoryWatchpoint { idx } => r matches DeviceAction::Respond(ResponseMessage::UnsetMemoryWatchpoint(res)) && old(c).watchpoint_unset(idx, final(c), res),
            RequestMessage::GetMemoryWatchpoints => r matches DeviceAction::Respond(ResponseMessage::GetMemoryWatchpoints(v)) && call_ensures(C::get_memory_watchpoints, (&*old(c),), v) && *final(c) == *old(c),
            RequestMessage::GetMaxMemoryWatchpoints => r matches DeviceAction::Respond(ResponseMessage::GetMaxMemoryWatchpoints(v)) && call_ensures(C::get_max_memory_watchpoints, (&*old(c),), v) && *final(c) == *old(c),
            RequestMessage::SetDepthCondition { condition } => r matches DeviceAction::Respond(ResponseMessage::SetDepthCondition(res)) && old(c).depth_condition_set(*final(c), condition, res),
            RequestMessage::UnsetDepthCondition => r matches DeviceAction::Respond(ResponseMessage::UnsetDepthCondition(res)) && old(c).depth_condition_unset(final(c), res),
            RequestMessage::GetDepth => r matches DeviceAction::Respond(ResponseMessage::GetDepth(v)) && call_ensures(C::get_depth, (&*old(c),), v) && *final(c) == *old(c),
            RequestMessage::Step => r matches DeviceAction::Respond(ResponseMessage::Step(res)) && old(c).stepped(final(c), res),
            RequestMessage::Pause => r matches DeviceAction::Respond(ResponseMessage::Pause) && old(c).paused(final(c)),
            RequestMessage::GetState => r matches DeviceAction::Respond(ResponseMessage::GetState(v)) && call_ensures(C::get_state, (&*old(c),), v) && *final(c) == *old(c),
            RequestMessage::Reset => r matches DeviceAction::Respond(ResponseMessage::Reset) && old(c).machine_reset(final(c)),
            RequestMessage::GetAdcStates => r matches DeviceAction::Respond(ResponseMessage::GetAdcStates(v)) && call_ensures(C::get_adc_states, (&*old(c),), v) && *final(c) == *old(c),
            RequestMessage::GetAdcReadings => r matches DeviceAction::Respond(ResponseMessage::GetAdcReadings(v)) && call_ensures(C::get_adc_readings, (&*old(c),), v) && *final(c) == *old(c),
            RequestMessage::GetTimerModes => r matches DeviceAction::Respond(ResponseMessage::GetTimerModes(v)) && call_ensures(C::get_timer_modes, (&*old(c),), v) && *final(c) == *old(c),
            RequestMessage::GetTimerStates => r matches DeviceAction::Respond(ResponseMessage::GetTimerStates(v)) && call_ensures(C::get_timer_states, (&*old(c),), v) && *final(c) == *old(c),
            RequestMessage::GetPwmStates => r matches DeviceAction::Respond(ResponseMessage::GetPwmStates(v)) && call_ensures(C::get_pwm_states, (&*old(c),), v) && *final(c) == *old(c),
            RequestMessage::GetPwmConfig => r matches DeviceAction::Respond(ResponseMessage::GetPwmConfig(v)) && call_ensures(C::get_pwm_config, (&*old(c),), v) && *final(c) == *old(c),
            RequestMessage::GetClock => r matches DeviceAction::Respond(ResponseMessage::GetClock(v)) && call_ensures(C::get_clock, (&*old(c),), v) && *final(c) == *old(c),
            RequestMessage::GetProgramMetadata => r matches DeviceAction::Respond(ResponseMessage::GetProgramMetadata(v)) && call_ensures(C::get_program_metadata, (&*old(c),), v) && *final(c) == *old(c),
            RequestMessage::SetProgramMetadata { metadata } => r matches DeviceAction::Respond(ResponseMessage::SetProgramMetadata) && old(c).program_metadata_set(metadata, final(c)),
            RequestMessage::RunUntilEvent => if run_pending {
                r is RunAlreadyPending && *final(c) == *old(c)
            } else {
                r matches DeviceAction::Started(f) && old(c).run_started(final(c), f)
            },
            RequestMessage::GetDeviceInfo => exists|info: DeviceInfo|
                {
                    &&& call_ensures(C::get_device_info, (&*old(c),), info)
                    &&& *final(c) == *old(c)
                    &&& if first_free_proxy(info.proxies@) < 3 {
                        r matches DeviceAction::Respond(ResponseMessage::GetDeviceInfo(d))
                            && with_proxy(info, d, proxy, proxy_version)
                    } else {
                        r is TooManyProxies
                    }
                },
        },
{
    match req {
        RequestMessage::GetPc => DeviceAction::Respond(ResponseMessage::GetPc(c.get_pc())),
        RequestMessage::SetPc { addr } => {
            c.set_pc(addr);
            DeviceAction::Respond(ResponseMessage::SetPc)
        },
        RequestMessage::GetRegister { reg } => DeviceAction::Respond(ResponseMessage::GetRegister(c.get_register(reg))),
        RequestMessage::SetRegister { reg, data } => {
            c.set_register(reg, data);
            DeviceAction::Respond(ResponseMessage::SetRegister)
        },
        RequestMessage::GetRegistersPsrAndPc => DeviceAction::Respond(ResponseMessage::GetRegistersPsrAndPc(c.get_registers_psr_and_pc())),
        RequestMessage::ReadWord { addr } => DeviceAction::Respond(ResponseMessage::ReadWord(c.read_word(addr))),
        RequestMessage::WriteWord { addr, word } => {
            c.write_word(addr, word);
            DeviceAction::Respond(ResponseMessage::WriteWord)
        },
        RequestMessage::StartPageWrite { page, checksum } => DeviceAction::Respond(ResponseMessage::StartPageWrite(c.start_page_write(page, checksum))),
        RequestMessage::SendPageChunk { offset, chunk } => DeviceAction::Respond(ResponseMessage::SendPageChunk(c.send_page_chunk(offset, chunk))),
        RequestMessage::FinishPageWrite { page } => DeviceAction::Respond(ResponseMessage::FinishPageWrite(c.finish_page_write(page))),
        RequestMessage::SetBreakpoint { addr } => DeviceAction::Respond(ResponseMessage::SetBreakpoint(c.set_breakpoint(addr))),
        RequestMessage::UnsetBreakpoint { idx } => DeviceAction::Respond(ResponseMessage::UnsetBreakpoint(c.unset_breakpoint(idx))),
        RequestMessage::GetBreakpoints => DeviceAction::Respond(ResponseMessage::GetBreakpoints(c.get_breakpoints())),
        RequestMessage::GetMaxBreakpoints => DeviceAction::Respond(ResponseMessage::GetMaxBreakpoints(c.get_max_breakpoints())),
        RequestMessage::SetMemoryWatchpoint { addr } => DeviceAction::Respond(ResponseMessage::SetMemoryWatchpoint(c.set_memory_watchpoint(addr))),
        RequestMessage::UnsetMemoryWatchpoint { idx } => DeviceAction::Respond(ResponseMessage::UnsetMemoryWatchpoint(c.unset_memory_watchpoint(idx))),
        RequestMessage::GetMemoryWatchpoints => DeviceAction::Respond(ResponseMessage::GetMemoryWatchpoints(c.get_memory_watchpoints())),
        RequestMessage::GetMaxMemoryWatchpoints => DeviceAction::Respond(ResponseMessage::GetMaxMemoryWatchpoints(c.get_max_memory_watchpoints())),
        RequestMessage::SetDepthCondition { condition } => DeviceAction::Respond(ResponseMessage::SetDepthCondition(c.set_depth_condition(condition))),
        RequestMessage::UnsetDepthCondition => DeviceAction::Respond(ResponseMessage::UnsetDepthCondition(c.unset_depth_condition())),
        RequestMessage::GetDepth => DeviceAction::Respond(ResponseMessage::GetDepth(c.get_depth())),
        RequestMessage::Step => DeviceAction::Respond(ResponseMessage::Step(c.step())),
        RequestMessage::Pause => {
            c.pause();
            DeviceAction::Respond(ResponseMessage::Pause)
        },
        RequestMessage::GetState => DeviceAction::Respond(ResponseMessage::GetState(c.get_state())),
        RequestMessage::Reset => {
            c.reset();
            DeviceAction::Respond(ResponseMessage::Reset)
        },
        RequestMessage::GetAdcStates => DeviceAction::Respond(ResponseMessage::GetAdcStates(c.get_adc_states())),
        RequestMessage::GetAdcReadings => DeviceAction::Respond(ResponseMessage::GetAdcReadings(c.get_adc_readings())),
        RequestMessage::GetTimerModes => DeviceAction::Respond(ResponseMessage::GetTimerModes(c.get_timer_modes())),
        RequestMessage::GetTimerStates => DeviceAction::Respond(ResponseMessage::GetTimerStates(c.get_timer_states())),
        RequestMessage::GetPwmStates => DeviceAction::Respond(ResponseMessage::GetPwmStates(c.get_pwm_states())),
        RequestMessage::GetPwmConfig => DeviceAction::Respond(ResponseMessage::GetPwmConfig(c.get_pwm_config())),
        RequestMessage::GetClock => DeviceAction::Respond(ResponseMessage::GetClock(c.get_clock())),
        RequestMessage::GetProgramMetadata => DeviceAction::Respond(ResponseMessage::GetProgramMetadata(c.get_program_metadata())),
        RequestMessage::SetProgramMetadata { metadata } => {
            c.set_program_metadata(metadata);
            DeviceAction::Respond(ResponseMessage::SetProgramMetadata)
        },
        RequestMessage::RunUntilEvent => {
            if run_pending {
                DeviceAction::RunAlreadyPending
            } else {
                DeviceAction::Started(c.run_until_event())
            }
        },
        RequestMessage::GetDeviceInfo => {
            let info = c.get_device_info();
            match info.add_proxy(proxy, proxy_version) {
                Ok(d) => DeviceAction::Respond(ResponseMessage::GetDeviceInfo(d)),
                Err(_) => DeviceAction::TooManyProxies,
            }
        },
    }
}

/// What a device does with the future of its pending run once it has been
/// polled (`polled` is the event when the poll found it ready): once the
/// event is there, the future is dropped and the event is sent; until then
/// the future is kept and nothing is sent.
pub fn after_run_poll<F>(future: F, polled: Option<Event>) -> (r: (Option<F>, Option<ResponseMessage>))
    ensures
        polled matches Some(e) ==> r.0 is None && r.1 == Some(ResponseMessage::RunUntilEvent(e)),
        polled is None ==> r.0 == Some(future) && r.1 is None,
{
    match polled {
        Some(e) => (None, Some(ResponseMessage::RunUntilEvent(e))),
        None => (Some(future), None),
    }
}

} // verus!
