//! The controller side of the control RPC: what a controller makes of a
//! response it receives. The controller itself (which sends requests and
//! waits for their answers over a transport) runs outside this library.

use vstd::prelude::*;
use crate::control::control::Event;
use super::messages::ResponseMessage;

verus! {

/// What a received response is to the controller.
#[derive(Debug, PartialEq, Eq)]
pub enum Received {
    /// The answer to the request the controller is waiting on.
    Response(ResponseMessage),
    /// The event of the run the controller is waiting on: the run's futures
    /// resolve with it.
    Event(Event),
    /// An event for a run the controller never asked for.
    UnrequestedEvent(Event),
}

/// Sorts a received response: the event of a run goes to the run's futures
/// where a run is pending; every other response answers the current
/// request.
pub fn classify_response(waiting_for_event: bool, m: ResponseMessage) -> (r: Received)
    ensures
        match m {
            ResponseMessage::RunUntilEvent(e) => if waiting_for_event {
                r == Received::Event(e)
            } else {
                r == Received::UnrequestedEvent(e)
            },
            _ => r == Received::Response(m),
        },
{
    match m {
        ResponseMessage::RunUntilEvent(e) => {
            if waiting_for_event {
                Received::Event(e)
            } else {
                Received::UnrequestedEvent(e)
            }
        },
        other => Received::Response(other),
    }
}

} // verus!
