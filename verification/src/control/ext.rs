//! Stepping by call depth, built on the control interface.

use vstd::prelude::*;
use super::control::Control;
use super::ranges::{Bound, UnifiedRange};

verus! {

/// Where to stop relative to the current call depth.
#[derive(Debug, Clone, Copy, PartialEq, Eq, PartialOrd, Ord, Hash)]
pub enum DepthBreakpoint {
    /// Stop once the depth is below the current one.
    StepOut,
    /// Stop at the current depth or deeper.
    StepIn,
    /// Stop at the current depth or shallower.
    StepOver,
}

/// The depth condition a depth breakpoint sets at depth `depth`.
pub open spec fn depth_breakpoint_range(bp: DepthBreakpoint, depth: u64) -> UnifiedRange<u64> {
    match bp {
        DepthBreakpoint::StepOut => UnifiedRange { start: Bound::Unbounded, end: Bound::Excludes(depth) },
        DepthBreakpoint::StepIn => UnifiedRange { start: Bound::Includes(depth), end: Bound::Unbounded },
        DepthBreakpoint::StepOver => UnifiedRange { start: Bound::Unbounded, end: Bound::Includes(depth) },
    }
}

/// What setting the depth breakpoint `bp` does on `before`, leaving
/// `after` and returning `r`: it reads the depth; where that fails it
/// returns the failure and changes nothing; else it sets the condition for
/// `bp` at that depth and returns whether that succeeded.
pub open spec fn sets_depth_breakpoint<C: Control>(
    before: C,
    after: C,
    bp: DepthBreakpoint,
    r: Result<(), ()>,
) -> bool {
    ||| {
        &&& call_ensures(C::get_depth, (&before,), Err::<u64, ()>(()))
        &&& r == Err::<(), ()>(())
        &&& after == before
    }
    ||| exists|depth: u64, res: Result<Option<UnifiedRange<u64>>, ()>|
        {
            &&& call_ensures(C::get_depth, (&before,), Ok::<u64, ()>(depth))
            &&& #[trigger] before.depth_condition_set(after, depth_breakpoint_range(bp, depth), res)
            &&& r == match res {
                Ok(_) => Ok::<(), ()>(()),
                Err(e) => Err(e),
            }
        }
}

/// Stepping out of, into and over calls, for every control implementation.
pub trait StepControl: Control + Sized {
    fn set_depth_breakpoint(&mut self, bp: DepthBreakpoint) -> (r: Result<(), ()>)
        ensures
            sets_depth_breakpoint(*old(self), *final(self), bp, r),
    {
        let curr = match self.get_depth() {
            Ok(d) => d,
            Err(e) => {
                return Err(e);
            },
        };
        let range: UnifiedRange<u64> = match bp {
            DepthBreakpoint::StepOut => UnifiedRange { start: Bound::Unbounded, end: Bound::Excludes(curr) },
            DepthBreakpoint::StepIn => UnifiedRange { start: Bound::Includes(curr), end: Bound::Unbounded },
            DepthBreakpoint::StepOver => UnifiedRange { start: Bound::Unbounded, end: Bound::Includes(curr) },
        };
        assert(range == depth_breakpoint_range(bp, curr));
        let res = self.set_depth_condition(range);
        match res {
            Ok(_) => Ok(()),
            Err(e) => Err(e),
        }
    }

    /// Stops once the current call returns.
    fn step_out(&mut self) -> (r: Result<(), ()>)
        ensures
            sets_depth_breakpoint(*old(self), *final(self), DepthBreakpoint::StepOut, r),
    {
        self.set_depth_breakpoint(DepthBreakpoint::StepOut)
    }

    /// Stops at the next step at this depth or deeper.
    fn step_in(&mut self) -> (r: Result<(), ()>)
        ensures
            sets_depth_breakpoint(*old(self), *final(self), DepthBreakpoint::StepIn, r),
    {
        self.set_depth_breakpoint(DepthBreakpoint::StepIn)
    }

    /// Stops at the next step at this depth or shallower.
    fn step_over(&mut self) -> (r: Result<(), ()>)
        ensures
            sets_depth_breakpoint(*old(self), *final(self), DepthBreakpoint::StepOver, r),
    {
        self.set_depth_breakpoint(DepthBreakpoint::StepOver)
    }
}

impl<C: Control> StepControl for C {
}

} // verus!
