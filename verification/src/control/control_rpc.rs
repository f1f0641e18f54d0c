//! The flat-message control protocol: one message enum carried over a
//! transport layer, and the device side that answers it.

use vstd::prelude::*;
use crate::isa::{Addr, Reg, Word};
use super::control::{Control, Event, State};

verus! {

/// A message of the flat-message control protocol: requests and their replies.
#[allow(non_camel_case_types)]
#[derive(Debug, PartialEq, Eq)]
pub enum Message {
    GET_PC,
    GET_PC_RETURN_VAL(Addr),
    SET_PC(u16),
    SET_PC_SUCCESS,
    WRITE_WORD(u16, u16),
    WRITE_WORD_SUCCESS,
    READ_WORD(u16),
    READ_WORD_RETURN_VAL(u16),
    PAUSE,
    PAUSE_SUCCESS,
    SET_BREAKPOINT(u16),
    SET_BREAKPOINT_SUCCESS,
    UNSET_BREAKPOINT(usize),
    UNSET_BREAKPOINT_SUCCESS,
    GET_BREAKPOINTS,
    GET_BREAKPOINTS_RETURN_VAL([Option<Addr>; 10]),
    GET_MAX_BREAKPOINTS,
    SET_MEMORY_WATCH(u16),
    SET_MEMORY_WATCH_SUCCESS,
    UNSET_MEMORY_WATCH(usize),
    UNSET_MEMORY_WATCH_SUCCESS,
    GET_MEMORY_WATCHES,
    GET_MEMORY_WATCHES_RETURN_VAL([Option<Addr>; 10]),
    GET_MAX_MEMORY_WATCHES,
    STEP,
    STEP_SUCCESSFUL,
    RUN_UNTIL_EVENT,
    ISSUED_RUN_UNTIL_EVENT,
    SET_REGISTER(Reg, Word),
    SET_REGISTER_SUCCESS,
    GET_REGISTER(Reg),
    GET_REGISTER_RETURN_VAL(u16),
    COMMIT_MEMORY,
    COMMIT_MEMORY_SUCCESS,
    GET_STATE,
    GET_STATE_RETURN_VAL(State),
}

/// A transport for the flat-message control protocol.
pub trait TransportLayer {
    fn send(&self, message: Message) -> Result<(), ()>;

    fn get(&self) -> Option<Message>;
}

/// What the device side does with one received message.
#[derive(Debug, PartialEq, Eq)]
pub enum ClientReply {
    /// Send this reply.
    Send(Message),
    /// Send nothing.
    Nothing,
    /// A reply arrived where only requests are expected.
    Unexpected,
}

/// Whether `m` is one of the replies (which the device never receives).
pub open spec fn is_reply(m: Message) -> bool {
    ||| m is SET_PC_SUCCESS
    ||| m is WRITE_WORD_SUCCESS
    ||| m is READ_WORD_RETURN_VAL
    ||| m is PAUSE_SUCCESS
    ||| m is SET_BREAKPOINT_SUCCESS
    ||| m is UNSET_BREAKPOINT_SUCCESS
    ||| m is GET_BREAKPOINTS_RETURN_VAL
    ||| m is SET_MEMORY_WATCH_SUCCESS
    ||| m is UNSET_MEMORY_WATCH_SUCCESS
    ||| m is GET_MEMORY_WATCHES_RETURN_VAL
    ||| m is STEP_SUCCESSFUL
    ||| m is ISSUED_RUN_UNTIL_EVENT
    ||| m is SET_REGISTER_SUCCESS
    ||| m is GET_REGISTER_RETURN_VAL
    ||| m is COMMIT_MEMORY_SUCCESS
    ||| m is GET_STATE_RETURN_VAL
}

/// Carries out one received message on `cont` and says what to send back.
///
/// Every request but `GET_MAX_BREAKPOINTS`, `GET_MAX_MEMORY_WATCHES` and
/// `GET_MEMORY_WATCHES` is answered; a `GET_PC_RETURN_VAL` is ignored and
/// any other reply is unexpected. A memory commit is acknowledged without a call (the control interface has no
/// commit).
pub fn client_reply<C: Control>(cont: &mut C, m: Message) -> (r: ClientReply)
    ensures
        is_reply(m) ==> r == ClientReply::Unexpected && *final(cont) == *old(cont),
        m is GET_PC_RETURN_VAL ==> r == ClientReply::Nothing && *final(cont) == *old(cont),
        m is GET_PC ==> (r matches ClientReply::Send(Message::GET_PC_RETURN_VAL(v)) && call_ensures(C::get_pc, (&*old(cont),), v)),
        m is SET_PC ==> r == ClientReply::Send(Message::SET_PC_SUCCESS) && old(cont).pc_set(m->SET_PC_0, final(cont)),
        m is SET_REGISTER ==> r == ClientReply::Send(Message::SET_REGISTER_SUCCESS)
            && old(cont).register_set(m->SET_REGISTER_0, m->SET_REGISTER_1, final(cont)),
        m is RUN_UNTIL_EVENT ==> r == ClientReply::Send(Message::ISSUED_RUN_UNTIL_EVENT)
            && exists|f: C::EventFuture| #[trigger] old(cont).run_started(final(cont), f),
        m is WRITE_WORD ==> r == ClientReply::Send(Message::WRITE_WORD_SUCCESS)
            && old(cont).word_written(m->WRITE_WORD_0, m->WRITE_WORD_1, final(cont)),
        m is PAUSE ==> r == ClientReply::Send(Message::PAUSE_SUCCESS) && old(cont).paused(final(cont)),
        m is SET_BREAKPOINT ==> r == ClientReply::Send(Message::SET_BREAKPOINT_SUCCESS)
            && exists|res: Result<usize, ()>| #[trigger] old(cont).breakpoint_set(m->SET_BREAKPOINT_0, final(cont), res),
        m is UNSET_BREAKPOINT ==> r == ClientReply::Send(Message::UNSET_BREAKPOINT_SUCCESS)
            && exists|res: Result<(), ()>| #[trigger] old(cont).breakpoint_unset(m->UNSET_BREAKPOINT_0, final(cont), res),
        m is GET_BREAKPOINTS ==> (r matches ClientReply::Send(Message::GET_BREAKPOINTS_RETURN_VAL(b)) && call_ensures(C::get_breakpoints, (&*old(cont),), b)),
        m is SET_MEMORY_WATCH ==> r == ClientReply::Send(Message::SET_MEMORY_WATCH_SUCCESS)
            && exists|res: Result<usize, ()>| #[trigger] old(cont).watchpoint_set(m->SET_MEMORY_WATCH_0, final(cont), res),
        m is UNSET_MEMORY_WATCH ==> r == ClientReply::Send(Message::UNSET_MEMORY_WATCH_SUCCESS)
            && exists|res: Result<(), ()>| #[trigger] old(cont).watchpoint_unset(m->UNSET_MEMORY_WATCH_0, final(cont), res),
        m is GET_MAX_BREAKPOINTS ==> r == ClientReply::Nothing && *final(cont) == *old(cont),
        m is GET_MAX_MEMORY_WATCHES ==> r == ClientReply::Nothing && *final(cont) == *old(cont),
        m is STEP ==> r == ClientReply::Send(Message::STEP_SUCCESSFUL)
            && exists|res: Option<Event>| #[trigger] old(cont).stepped(final(cont), res),
        m is READ_WORD ==> (r matches ClientReply::Send(Message::READ_WORD_RETURN_VAL(w)) && call_ensures(C::read_word, (&*old(cont), m->READ_WORD_0), w)),
        m is GET_MEMORY_WATCHES ==> r == ClientReply::Nothing && *final(cont) == *old(cont),
        m is GET_REGISTER ==> (r matches ClientReply::Send(Message::GET_REGISTER_RETURN_VAL(w)) && call_ensures(C::get_register, (&*old(cont), m->GET_REGISTER_0), w)),
        m is COMMIT_MEMORY ==> r == ClientReply::Send(Message::COMMIT_MEMORY_SUCCESS) && *final(cont) == *old(cont),
        m is GET_STATE ==> (r matches ClientReply::Send(Message::GET_STATE_RETURN_VAL(s)) && call_ensures(C::get_state, (&*old(cont),), s)),
{
    match m {
        Message::GET_PC => ClientReply::Send(Message::GET_PC_RETURN_VAL(cont.get_pc())),
        Message::GET_PC_RETURN_VAL(_) => ClientReply::Nothing,
        Message::SET_PC(val) => {
            cont.set_pc(val);
            ClientReply::Send(Message::SET_PC_SUCCESS)
        },
        Message::SET_REGISTER(reg, word) => {
            cont.set_register(reg, word);
            ClientReply::Send(Message::SET_REGISTER_SUCCESS)
        },
        Message::RUN_UNTIL_EVENT => {
            let _ = cont.run_until_event();
            ClientReply::Send(Message::ISSUED_RUN_UNTIL_EVENT)
        },
        Message::WRITE_WORD(word, value) => {
            cont.write_word(word, value);
            ClientReply::Send(Message::WRITE_WORD_SUCCESS)
        },
        Message::PAUSE => {
            cont.pause();
            ClientReply::Send(Message::PAUSE_SUCCESS)
        },
        Message::SET_BREAKPOINT(addr) => {
            let _ = cont.set_breakpoint(addr);
            ClientReply::Send(Message::SET_BREAKPOINT_SUCCESS)
        },
        Message::UNSET_BREAKPOINT(idx) => {
            let _ = cont.unset_breakpoint(idx);
            ClientReply::Send(Message::UNSET_BREAKPOINT_SUCCESS)
        },
        Message::GET_BREAKPOINTS => ClientReply::Send(Message::GET_BREAKPOINTS_RETURN_VAL(cont.get_breakpoints())),
        Message::SET_MEMORY_WATCH(addr) => {
            let _ = cont.set_memory_watchpoint(addr);
            ClientReply::Send(Message::SET_MEMORY_WATCH_SUCCESS)
        },
        Message::UNSET_MEMORY_WATCH(idx) => {
            let _ = cont.unset_memory_watchpoint(idx);
            ClientReply::Send(Message::UNSET_MEMORY_WATCH_SUCCESS)
        },
        Message::GET_MAX_BREAKPOINTS => ClientReply::Nothing,
        Message::GET_MAX_MEMORY_WATCHES => ClientReply::Nothing,
        Message::STEP => {
            let _ = cont.step();
            ClientReply::Send(Message::STEP_SUCCESSFUL)
        },
        Message::READ_WORD(addr) => ClientReply::Send(Message::READ_WORD_RETURN_VAL(cont.read_word(addr))),
        Message::GET_MEMORY_WATCHES => {
            let _ = cont.get_memory_watchpoints();
            ClientReply::Nothing
        },
        Message::GET_REGISTER(reg) => ClientReply::Send(Message::GET_REGISTER_RETURN_VAL(cont.get_register(reg))),
        Message::COMMIT_MEMORY => ClientReply::Send(Message::COMMIT_MEMORY_SUCCESS),
        Message::GET_STATE => ClientReply::Send(Message::GET_STATE_RETURN_VAL(cont.get_state())),
        _ => ClientReply::Unexpected,
    }
}

/// A signal of the JSON-framed variant of the flat-message protocol.
#[allow(non_camel_case_types)]
#[derive(Debug, Clone, Copy, PartialEq, Eq)]
pub enum Signal {
    GET_PC,
    SET_PC(u16),
    WRITE_WORD(u16, u16),
    READ_WORD(u16),
    PAUSE,
    SET_BREAKPOINT(u16),
    UNSET_BREAKPOINT(usize),
    GET_BREAKPOINTS(u16),
    GET_MAX_BREAKPOINTS,
    SET_MEMORY_WATCH(u16),
    UNSET_MEMORY_WATCH(usize),
    GET_MEMORY_WATCHES,
    GET_MAX_MEMORY_WATCHES,
    STEP,
    RUN_UNTIL_EVENT,
    SET_REGISTER(Reg, Word),
    GET_REGISTER(Reg),
}

/// Carries out a decoded signal on `sim`; the results of queries are
/// dropped, as the protocol has no replies.
pub fn execute_signal<C: Control>(sim: &mut C, s: Signal)
    ensures
        s is RUN_UNTIL_EVENT ==> exists|f: C::EventFuture| #[trigger] old(sim).run_started(final(sim), f),
        s matches Signal::SET_PC(addr) ==> old(sim).pc_set(addr, final(sim)),
        s matches Signal::WRITE_WORD(addr, word) ==> old(sim).word_written(addr, word, final(sim)),
        s is PAUSE ==> old(sim).paused(final(sim)),
        s matches Signal::SET_BREAKPOINT(addr) ==> exists|r: Result<usize, ()>|
            #[trigger] old(sim).breakpoint_set(addr, final(sim), r),
        s matches Signal::UNSET_BREAKPOINT(idx) ==> exists|r: Result<(), ()>|
            #[trigger] old(sim).breakpoint_unset(idx, final(sim), r),
        s matches Signal::SET_MEMORY_WATCH(addr) ==> exists|r: Result<usize, ()>|
            #[trigger] old(sim).watchpoint_set(addr, final(sim), r),
        s matches Signal::UNSET_MEMORY_WATCH(idx) ==> exists|r: Result<(), ()>|
            #[trigger] old(sim).watchpoint_unset(idx, final(sim), r),
        s is STEP ==> exists|r: Option<Event>| #[trigger] old(sim).stepped(final(sim), r),
        s matches Signal::SET_REGISTER(reg, word) ==> old(sim).register_set(reg, word, final(sim)),
        s is GET_PC || s is READ_WORD || s is GET_BREAKPOINTS || s is GET_MAX_BREAKPOINTS
            || s is GET_MAX_MEMORY_WATCHES || s is GET_MEMORY_WATCHES || s is GET_REGISTER
            ==> *final(sim) == *old(sim),
{
    match s {
        Signal::RUN_UNTIL_EVENT => {
            let _ = sim.run_until_event();
        },
        Signal::SET_PC(addr) => {
            sim.set_pc(addr);
        },
        Signal::WRITE_WORD(word, value) => {
            sim.write_word(word, value);
        },
        Signal::PAUSE => {
            sim.pause();
        },
        Signal::SET_BREAKPOINT(addr) => {
            let _ = sim.set_breakpoint(addr);
        },
        Signal::UNSET_BREAKPOINT(idx) => {
            let _ = sim.unset_breakpoint(idx);
        },
        Signal::GET_BREAKPOINTS(_) => {
            let _ = sim.get_breakpoints();
        },
        Signal::GET_MAX_BREAKPOINTS => {},
        Signal::SET_MEMORY_WATCH(addr) => {
            let _ = sim.set_memory_watchpoint(addr);
        },
        Signal::UNSET_MEMORY_WATCH(idx) => {
            let _ = sim.unset_memory_watchpoint(idx);
        },
        Signal::GET_MAX_MEMORY_WATCHES => {},
        Signal::STEP => {
            let _ = sim.step();
        },
        Signal::GET_PC => {
            let _ = sim.get_pc();
        },
        Signal::READ_WORD(addr) => {
            let _ = sim.read_word(addr);
        },
        Signal::GET_MEMORY_WATCHES => {
            let _ = sim.get_memory_watchpoints();
        },
        Signal::SET_REGISTER(reg, word) => {
            sim.set_register(reg, word);
        },
        Signal::GET_REGISTER(reg) => {
            let _ = sim.get_register(reg);
        },
    }
}

} // verus!
