//! The `Snapshot` trait: recording a value's state and restoring a recorded
//! state.

use vstd::prelude::*;
use core::convert::Infallible;
use core::fmt::Debug;

verus! {

/// Why a state could not be recorded or restored.
#[derive(Debug, Clone, PartialEq, Eq, PartialOrd, Ord, Hash)]
pub enum SnapshotError {
    UnrecordableState,
    UninterruptableState,
    Other(&'static str),
}

impl From<Infallible> for SnapshotError {
    /// No `Infallible` value exists, so this is never called.
    fn from(_v: Infallible) -> (r: Self) {
        SnapshotError::UnrecordableState
    }
}

impl vstd::std_specs::convert::FromSpecImpl<Infallible> for SnapshotError {
    open spec fn obeys_from_spec() -> bool {
        true
    }

    open spec fn from_spec(v: Infallible) -> Self {
        SnapshotError::UnrecordableState
    }
}

/// A type whose state can be recorded and later restored.
pub trait Snapshot {
    type Snap;
    type Err: Debug + Into<SnapshotError>;

    /// Whether `r` is a result `record` can give on `self`.
    spec fn records(&self, r: Result<Self::Snap, Self::Err>) -> bool;

    /// Whether `restore(snap)` on `self` can leave `after` and return `r`.
    spec fn restores(&self, snap: Self::Snap, after: &Self, r: Result<(), Self::Err>) -> bool;

    /// Records the current state; fails where the state cannot be recorded.
    fn record(&self) -> (r: Result<Self::Snap, Self::Err>)
        ensures
            self.records(r),
    ;

    /// Replaces the current state with a recorded one; fails where the
    /// current state cannot be abandoned.
    fn restore(&mut self, snap: Self::Snap) -> (r: Result<(), Self::Err>)
        ensures
            old(self).restores(snap, final(self), r),
    ;
}

/// Whether `record` on `s` can succeed.
pub open spec fn can_record<S: Snapshot>(s: S) -> bool {
    exists|snap: S::Snap| #[trigger] s.records(Ok(snap))
}

/// Whether `record` on `s` can fail with an error that `SnapshotError::from`
/// turns into `e`.
pub open spec fn record_fails_as<S: Snapshot>(s: S, e: SnapshotError) -> bool where
    SnapshotError: From<S::Err>,
{
    exists|x: S::Err|
        #[trigger] s.records(Err(x)) && call_ensures(<SnapshotError as From<S::Err>>::from, (x,), e)
}

/// Whether `restore(snap)` on `s` can leave `after` and fail with an error
/// that `SnapshotError::from` turns into `e`.
pub open spec fn restore_fails_as<S: Snapshot>(s: S, snap: S::Snap, after: S, e: SnapshotError) -> bool where
    SnapshotError: From<S::Err>,
{
    exists|x: S::Err|
        #[trigger] s.restores(snap, &after, Err(x)) && call_ensures(
            <SnapshotError as From<S::Err>>::from,
            (x,),
            e,
        )
}

/// Every `Clone` type records itself by cloning and restores by
/// replacement; neither fails.
impl<T: Clone> Snapshot for T {
    type Snap = Self;
    type Err = Infallible;

    open spec fn records(&self, r: Result<Self, Infallible>) -> bool {
        r matches Ok(s) && vstd::pervasive::cloned(*self, s)
    }

    open spec fn restores(&self, snap: Self, after: &Self, r: Result<(), Infallible>) -> bool {
        *after == snap && r is Ok
    }

    fn record(&self) -> (r: Result<Self::Snap, Self::Err>)
        ensures
            r matches Ok(s) && vstd::pervasive::cloned(*self, s),
    {
        Ok(self.clone())
    }

    fn restore(&mut self, snap: Self) -> (r: Result<(), Self::Err>)
        ensures
            *final(self) == snap,
            r is Ok,
    {
        *self = snap;
        Ok(())
    }
}

} // verus!
