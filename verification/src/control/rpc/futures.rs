//! The shared state behind the futures that `run_until_event` hands out.
//!
//! Futures are handed out in batches: every call to `run_until_event` made
//! before the next event joins the current batch; once the event happens
//! (the batch is sealed) no new future may join until every future of the
//! batch has received the event, after which the state is dormant again.

use vstd::prelude::*;
use core::task::Waker;
use crate::control::control::Event;

verus! {

#[verifier::external_type_specification]
#[verifier::external_body]
pub struct ExWaker(Waker);

/// Wraps `Waker::wake`, which schedules the task the waker belongs to.
#[verifier::external_body]
fn waker_wake(waker: Waker) {
    waker.wake()
}

/// The state shared between a producer of events and the futures waiting
/// for them.
#[derive(Debug)]
pub enum SharedStateState {
    Errored,
    Dormant,
    WaitingForAnEvent { waker: Option<Waker>, count: u8 },
    WaitingForFuturesToResolve { event: Event, waker: Option<Waker>, count: u8 },
}

impl Default for SharedStateState {
    fn default() -> (r: Self)
        ensures
            r is Errored,
    {
        SharedStateState::Errored
    }
}

/// The number of futures of the current batch that haven't resolved.
pub open spec fn pending_futures(s: SharedStateState) -> int {
    match s {
        SharedStateState::WaitingForAnEvent { count, .. } => count as int,
        SharedStateState::WaitingForFuturesToResolve { count, .. } => count as int,
        _ => 0,
    }
}

/// What a poll of the state gives and leaves: once the event is set, each
/// poll hands it out and counts one future as resolved.
pub open spec fn spec_get_event(s: SharedStateState) -> (SharedStateState, Option<Event>) {
    match s {
        SharedStateState::WaitingForFuturesToResolve { event, waker, count } => if count == 1 {
            (SharedStateState::Dormant, Some(event))
        } else {
            (SharedStateState::WaitingForFuturesToResolve { event, waker, count: (count - 1) as u8 }, Some(event))
        },
        _ => (s, None),
    }
}

/// The batch sealed with `event`: every pending future will get it, and the
/// waker has been woken.
pub open spec fn spec_resolve(s: SharedStateState, event: Event) -> SharedStateState {
    SharedStateState::WaitingForFuturesToResolve { event, waker: None, count: pending_futures(s) as u8 }
}

/// The state after one more future joins the batch.
pub open spec fn spec_increment(s: SharedStateState) -> SharedStateState {
    match s {
        SharedStateState::WaitingForAnEvent { waker, count } => SharedStateState::WaitingForAnEvent { waker, count: (count + 1) as u8 },
        _ => SharedStateState::WaitingForAnEvent { waker: None, count: 1 },
    }
}

/// `n` polls in a row: the final state and what each poll gave.
pub open spec fn spec_poll_n(s: SharedStateState, n: nat) -> (SharedStateState, Seq<Option<Event>>)
    decreases n,
{
    if n == 0 {
        (s, Seq::empty())
    } else {
        let (s1, e) = spec_get_event(s);
        let (s2, es) = spec_poll_n(s1, (n - 1) as nat);
        (s2, seq![e] + es)
    }
}

impl SharedStateState {
    /// The state's invariant: a waiting state always counts at least one
    /// future.
    pub open spec fn wf(self) -> bool {
        match self {
            SharedStateState::WaitingForAnEvent { count, .. } => count >= 1,
            SharedStateState::WaitingForFuturesToResolve { count, .. } => count >= 1,
            _ => true,
        }
    }

    /// Registers the waker of a future that found no event yet; it takes
    /// the place of any waker registered before, so the latest is kept.
    pub fn register_waker(&mut self, new_waker: Waker)
        requires
            *old(self) is WaitingForAnEvent,
            old(self).wf(),
        ensures
            final(self).wf(),
            *final(self) == (SharedStateState::WaitingForAnEvent {
                waker: Some(new_waker),
                count: (*old(self))->WaitingForAnEvent_count,
            }),
    {
        match self {
            SharedStateState::WaitingForAnEvent { count, .. } => {
                let c = *count;
                *self = SharedStateState::WaitingForAnEvent { waker: Some(new_waker), count: c };
            },
            _ => {
                proof {
                    assert(false);
                }
            },
        }
    }

    /// Wakes the registered waker, if one is present, and forgets it, so
    /// that it is woken only once; the batch's count (and its event, once
    /// set) stay.
    pub fn wake(&mut self)
        requires
            *old(self) is WaitingForAnEvent || *old(self) is WaitingForFuturesToResolve,
            old(self).wf(),
        ensures
            final(self).wf(),
            *old(self) is WaitingForAnEvent ==> (*final(self) matches SharedStateState::WaitingForAnEvent { waker: None, count }
                && count == (*old(self))->WaitingForAnEvent_count),
            *old(self) is WaitingForFuturesToResolve ==> (*final(self) matches SharedStateState::WaitingForFuturesToResolve { event, waker: None, count }
                && event == (*old(self))->WaitingForFuturesToResolve_event
                && count == (*old(self))->WaitingForFuturesToResolve_count),
    {
        match self {
            SharedStateState::WaitingForAnEvent { waker, .. } => {
                if let Some(w) = waker.take() {
                    waker_wake(w);
                }
            },
            SharedStateState::WaitingForFuturesToResolve { waker, .. } => {
                if let Some(w) = waker.take() {
                    waker_wake(w);
                }
            },
            _ => {
                proof {
                    assert(false);
                }
            },
        }
    }

    /// Seals the batch with `event`.
    pub fn set_event(&mut self, event: Event)
        requires
            *old(self) is WaitingForAnEvent,
            old(self).wf(),
        ensures
            final(self).wf(),
            *final(self) matches SharedStateState::WaitingForFuturesToResolve { event: e, waker, count }
                && e == event
                && count == (*old(self))->WaitingForAnEvent_count
                && waker == (*old(self))->WaitingForAnEvent_waker,
    {
        let mut old_state = SharedStateState::Errored;
        core::mem::swap(self, &mut old_state);
        match old_state {
            SharedStateState::WaitingForAnEvent { waker, count } => {
                *self = SharedStateState::WaitingForFuturesToResolve { event, waker, count };
            },
            _ => {
                proof {
                    assert(false);
                }
            },
        }
    }

    /// Gives the event, if the batch is sealed, counting one more future as
    /// resolved (and going dormant after the last one).
    pub fn get_event(&mut self) -> (r: Option<Event>)
        requires
            *old(self) is WaitingForAnEvent || (*old(self) matches SharedStateState::WaitingForFuturesToResolve { waker: None, .. }),
            old(self).wf(),
        ensures
            final(self).wf(),
            (*final(self), r) == spec_get_event(*old(self)),
    {
        match self {
            SharedStateState::WaitingForAnEvent { .. } => None,
            SharedStateState::WaitingForFuturesToResolve { event, count, .. } => {
                let e = *event;
                if *count == 1 {
                    *self = SharedStateState::Dormant;
                    Some(e)
                } else {
                    *count = *count - 1;
                    Some(e)
                }
            },
            _ => {
                proof {
                    assert(false);
                }
                None
            },
        }
    }

    /// Counts one more future in the current batch and returns the new
    /// count.
    pub fn increment(&mut self) -> (r: u8)
        requires
            *old(self) is Dormant || (*old(self) matches SharedStateState::WaitingForAnEvent { count, .. } && count < 255),
            old(self).wf(),
        ensures
            final(self).wf(),
            *final(self) == spec_increment(*old(self)),
            r == pending_futures(*final(self)),
    {
        match self {
            SharedStateState::WaitingForAnEvent { count, .. } => {
                *count = *count + 1;
                *count
            },
            _ => {
                *self = SharedStateState::WaitingForAnEvent { waker: None, count: 1 };
                1
            },
        }
    }

    /// Whether the event has been set and futures of the batch are still
    /// waiting for it.
    pub fn batch_sealed(&self) -> (r: bool)
        ensures
            r == (self is WaitingForFuturesToResolve),
    {
        match self {
            SharedStateState::WaitingForFuturesToResolve { .. } => true,
            _ => false,
        }
    }

    /// Whether no future is attached (the state is ready for a new batch).
    pub fn is_clean(&self) -> (r: bool)
        ensures
            r == (self is Dormant),
    {
        match self {
            SharedStateState::Dormant => true,
            _ => false,
        }
    }

    /// Resets the state for a new batch. Futures still pending are not
    /// forced to resolve: their batch is left as it is, and a dormant state
    /// stays dormant.
    pub fn reset(&mut self)
        requires
            !(*old(self) is Errored),
        ensures
            *final(self) == *old(self),
    {
        if self.is_clean() {
            *self = SharedStateState::Dormant;
        }
    }

    /// The producer's side of `run_until_event`: a new future joins the
    /// batch, unless the batch is sealed.
    pub fn add_new_future(&mut self) -> (r: Result<(), ()>)
        requires
            old(self).wf(),
            !(*old(self) is Errored),
            *old(self) matches SharedStateState::WaitingForAnEvent { count, .. } ==> count < 255,
        ensures
            final(self).wf(),
            r is Err <==> *old(self) is WaitingForFuturesToResolve,
            r is Err ==> *final(self) == *old(self),
            r is Ok ==> *final(self) == spec_increment(*old(self)),
    {
        if self.batch_sealed() {
            Err(())
        } else {
            self.increment();
            Ok(())
        }
    }

    /// A controller's side of `run_until_event`: the new future joins the
    /// batch (unless it is sealed), and the run is requested from the
    /// device only when no run is already `waiting` for its event.
    pub fn run_request_step(&mut self, waiting: bool) -> (r: Result<bool, ()>)
        requires
            old(self).wf(),
            !(*old(self) is Errored),
            *old(self) matches SharedStateState::WaitingForAnEvent { count, .. } ==> count < 255,
        ensures
            final(self).wf(),
            r is Err <==> *old(self) is WaitingForFuturesToResolve,
            r is Err ==> *final(self) == *old(self),
            r is Ok ==> *final(self) == spec_increment(*old(self)) && r == Ok::<bool, ()>(!waiting),
    {
        match self.add_new_future() {
            Ok(()) => Ok(!waiting),
            Err(()) => Err(()),
        }
    }

    /// The producer's side of an event: seals the batch with `event` and
    /// wakes the waiting future, unless the batch is already sealed.
    pub fn resolve_all(&mut self, event: Event) -> (r: Result<(), ()>)
        requires
            old(self).wf(),
            *old(self) is WaitingForAnEvent || *old(self) is WaitingForFuturesToResolve,
        ensures
            final(self).wf(),
            r is Err <==> *old(self) is WaitingForFuturesToResolve,
            r is Err ==> *final(self) == *old(self),
            r is Ok ==> *final(self) == spec_resolve(*old(self), event),
    {
        if self.batch_sealed() {
            Err(())
        } else {
            self.set_event(event);
            self.wake();
            Ok(())
        }
    }

    /// A future's poll: the event if the batch is sealed, otherwise the
    /// future's waker is registered and nothing is returned yet.
    pub fn poll(&mut self, waker: Waker) -> (r: Option<Event>)
        requires
            old(self).wf(),
            *old(self) is WaitingForAnEvent || (*old(self) matches SharedStateState::WaitingForFuturesToResolve { waker: None, .. }),
        ensures
            final(self).wf(),
            *old(self) is WaitingForFuturesToResolve ==> r == spec_get_event(*old(self)).1
                && *final(self) == spec_get_event(*old(self)).0,
            *old(self) is WaitingForAnEvent ==> r is None && *final(self) == (SharedStateState::WaitingForAnEvent {
                waker: Some(waker),
                count: (*old(self))->WaitingForAnEvent_count,
            }),
    {
        match self.get_event() {
            Some(e) => Some(e),
            None => {
                self.register_waker(waker);
                None
            },
        }
    }
}

/// A sealed batch of `c` futures hands the event to each of exactly `c`
/// polls and is then dormant again, ready for a new batch.
pub proof fn lemma_sealed_batch_resolves(event: Event, c: u8)
    requires
        c >= 1,
    ensures
        spec_poll_n(SharedStateState::WaitingForFuturesToResolve { event, waker: None, count: c }, c as nat).0 is Dormant,
        spec_poll_n(SharedStateState::WaitingForFuturesToResolve { event, waker: None, count: c }, c as nat).1
            =~= Seq::new(c as nat, |i: int| Some(event)),
    decreases c,
{
    let s = SharedStateState::WaitingForFuturesToResolve { event, waker: None, count: c };
    if c > 1 {
        lemma_sealed_batch_resolves(event, (c - 1) as u8);
        let (s1, e) = spec_get_event(s);
        assert(s1 == SharedStateState::WaitingForFuturesToResolve { event, waker: None, count: (c - 1) as u8 });
        let rest = spec_poll_n(s1, (c - 1) as nat).1;
        assert(spec_poll_n(s, c as nat).1 =~= seq![Some(event)] + rest);
    } else {
        assert(spec_poll_n(SharedStateState::Dormant, 0).1 =~= Seq::<Option<Event>>::empty());
    }
}

/// Every future that joins a batch is counted: starting dormant, `n`
/// futures joining leaves `n` pending futures and an unsealed batch.
pub proof fn lemma_joined_futures_counted(n: nat)
    requires
        1 <= n <= 255,
    ensures
        spec_join_n(SharedStateState::Dormant, n) is WaitingForAnEvent,
        pending_futures(spec_join_n(SharedStateState::Dormant, n)) == n,
    decreases n,
{
    if n > 1 {
        lemma_joined_futures_counted((n - 1) as nat);
    } else {
        assert(spec_join_n(SharedStateState::Dormant, 0) == SharedStateState::Dormant);
    }
}

/// The state after `n` futures join in a row.
pub open spec fn spec_join_n(s: SharedStateState, n: nat) -> SharedStateState
    decreases n,
{
    if n == 0 {
        s
    } else {
        spec_increment(spec_join_n(s, (n - 1) as nat))
    }
}

/// The batch protocol: starting dormant, `k` futures join; whatever wakers
/// their polls register meanwhile, the batch still counts `k` futures; the
/// event then seals it; the next `k` polls each get the event, after which
/// the state is dormant again.
pub proof fn lemma_batch_law(k: nat, waiting: SharedStateState, event: Event)
    requires
        1 <= k <= 255,
        waiting is WaitingForAnEvent,
        pending_futures(waiting) == pending_futures(spec_join_n(SharedStateState::Dormant, k)),
    ensures
        spec_join_n(SharedStateState::Dormant, k) is WaitingForAnEvent,
        pending_futures(waiting) == k,
        spec_poll_n(spec_resolve(waiting, event), k).0 is Dormant,
        spec_poll_n(spec_resolve(waiting, event), k).1 =~= Seq::new(k, |i: int| Some(event)),
{
    lemma_joined_futures_counted(k);
    lemma_sealed_batch_resolves(event, k as u8);
}

} // verus!
