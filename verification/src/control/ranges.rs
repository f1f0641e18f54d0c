//! A range type that covers every kind of range in the standard library.

use vstd::prelude::*;
use core::ops::{Range, RangeFrom, RangeFull, RangeInclusive, RangeTo, RangeToInclusive};

verus! {

#[verifier::external_type_specification]
#[verifier::reject_recursive_types(Idx)]
pub struct ExRangeFrom<Idx>(RangeFrom<Idx>);

#[verifier::external_type_specification]
#[verifier::reject_recursive_types(Idx)]
pub struct ExRangeTo<Idx>(RangeTo<Idx>);

#[verifier::external_type_specification]
#[verifier::reject_recursive_types(Idx)]
pub struct ExRangeToInclusive<Idx>(RangeToInclusive<Idx>);

#[verifier::external_type_specification]
pub struct ExRangeFull(RangeFull);

#[verifier::external_type_specification]
#[verifier::reject_recursive_types(T)]
pub struct ExCoreBound<T>(core::ops::Bound<T>);

/// `RangeInclusive::start`: the range's first value.
pub assume_specification<Idx>[ RangeInclusive::<Idx>::start ](r: &RangeInclusive<Idx>) -> (s: &Idx)
    ensures
        *s == r@.start,
;

/// `RangeInclusive::end`: the range's last value.
pub assume_specification<Idx>[ RangeInclusive::<Idx>::end ](r: &RangeInclusive<Idx>) -> (e: &Idx)
    ensures
        *e == r@.end,
;

/// Whether an inclusive range has been iterated to its end, read through
/// `RangeBounds::end_bound` (which is `Excluded` exactly then).
#[verifier::external_body]
fn range_inclusive_exhausted<Idx>(r: &RangeInclusive<Idx>) -> (b: bool)
    ensures
        b == r@.exhausted,
{
    matches!(core::ops::RangeBounds::end_bound(r), core::ops::Bound::Excluded(_))
}

/// One end of a range: included, excluded or absent.
#[derive(Debug, Copy, Clone, PartialEq, Eq, Hash)]
pub enum Bound<T> {
    Includes(T),
    Excludes(T),
    Unbounded,
}

/// Whether the standard library's `c` is the same bound as `b`, referring
/// to `b`'s own end value.
pub open spec fn is_core_bound_of<T>(b: Bound<T>, c: core::ops::Bound<&T>) -> bool {
    match b {
        Bound::Includes(v) => c matches core::ops::Bound::Included(x) && *x == v,
        Bound::Excludes(v) => c matches core::ops::Bound::Excluded(x) && *x == v,
        Bound::Unbounded => c matches core::ops::Bound::Unbounded,
    }
}

/// Whether `b` is the bound of the same kind as `c`, holding a clone of
/// `c`'s end value.
pub open spec fn is_bound_from<T: Clone>(c: core::ops::Bound<&T>, b: Bound<T>) -> bool {
    match c {
        core::ops::Bound::Included(x) => b matches Bound::Includes(v) && vstd::pervasive::cloned(*x, v),
        core::ops::Bound::Excluded(x) => b matches Bound::Excludes(v) && vstd::pervasive::cloned(*x, v),
        core::ops::Bound::Unbounded => b matches Bound::Unbounded,
    }
}

/// Converting a bound to the standard library's and back gives a bound of
/// the same kind whose end value is a clone of the original one.
pub proof fn lemma_bound_round_trip<T: Clone>(b: Bound<T>, c: core::ops::Bound<&T>, r: Bound<T>)
    requires
        is_core_bound_of(b, c),
        is_bound_from(c, r),
    ensures
        match b {
            Bound::Includes(v) => r matches Bound::Includes(w) && vstd::pervasive::cloned(v, w),
            Bound::Excludes(v) => r matches Bound::Excludes(w) && vstd::pervasive::cloned(v, w),
            Bound::Unbounded => r matches Bound::Unbounded,
        },
{
}

impl<T> Bound<T> {
    /// The same bound as the standard library's `Bound`.
    pub fn as_core_bound(&self) -> (r: core::ops::Bound<&T>)
        ensures
            is_core_bound_of(*self, r),
    {
        match self {
            Bound::Includes(b) => core::ops::Bound::Included(b),
            Bound::Excludes(b) => core::ops::Bound::Excluded(b),
            Bound::Unbounded => core::ops::Bound::Unbounded,
        }
    }
}

impl<'a, T: Clone> From<core::ops::Bound<&'a T>> for Bound<T> {
    /// The same bound, holding a clone of the end value.
    fn from(b: core::ops::Bound<&'a T>) -> (r: Self)
        ensures
            is_bound_from(b, r),
    {
        match b {
            core::ops::Bound::Included(x) => Bound::Includes(x.clone()),
            core::ops::Bound::Excluded(x) => Bound::Excludes(x.clone()),
            core::ops::Bound::Unbounded => Bound::Unbounded,
        }
    }
}

/// What a clone gives is known only through `cloned`, so `from` is not a
/// function of its argument as far as specs go: its own `ensures` says what
/// it returns.
impl<'a, T: Clone> vstd::std_specs::convert::FromSpecImpl<core::ops::Bound<&'a T>> for Bound<T> {
    open spec fn obeys_from_spec() -> bool {
        false
    }

    open spec fn from_spec(b: core::ops::Bound<&'a T>) -> Self {
        choose|r: Self| is_bound_from(b, r)
    }
}

/// A range given by its two ends.
#[derive(Debug, Copy, Clone, PartialEq, Eq, Hash)]
pub struct UnifiedRange<T> {
    pub start: Bound<T>,
    pub end: Bound<T>,
}

impl<T> core::ops::RangeBounds<T> for UnifiedRange<T> {
    /// The lower end, as the standard library's `Bound`.
    fn start_bound(&self) -> (r: core::ops::Bound<&T>)
        ensures
            match self.start {
                Bound::Includes(b) => r matches core::ops::Bound::Included(x) && *x == b,
                Bound::Excludes(b) => r matches core::ops::Bound::Excluded(x) && *x == b,
                Bound::Unbounded => r matches core::ops::Bound::Unbounded,
            },
    {
        self.start.as_core_bound()
    }

    /// The upper end, as the standard library's `Bound`.
    fn end_bound(&self) -> (r: core::ops::Bound<&T>)
        ensures
            match self.end {
                Bound::Includes(b) => r matches core::ops::Bound::Included(x) && *x == b,
                Bound::Excludes(b) => r matches core::ops::Bound::Excluded(x) && *x == b,
                Bound::Unbounded => r matches core::ops::Bound::Unbounded,
            },
    {
        self.end.as_core_bound()
    }
}

/// What `UnifiedRange::from` makes of a range given by its ends `start` and
/// `end` (`None` where the range has no such end): a bound of the given
/// kind holding a clone of each end that is present.
pub open spec fn is_range_from<T: Clone>(
    start: Option<T>,
    end: Option<T>,
    end_included: bool,
    u: UnifiedRange<T>,
) -> bool {
    &&& match start {
        Some(s) => u.start matches Bound::Includes(x) && vstd::pervasive::cloned(s, x),
        None => u.start matches Bound::Unbounded,
    }
    &&& match end {
        Some(e) => if end_included {
            u.end matches Bound::Includes(x) && vstd::pervasive::cloned(e, x)
        } else {
            u.end matches Bound::Excludes(x) && vstd::pervasive::cloned(e, x)
        },
        None => u.end matches Bound::Unbounded,
    }
}

impl<T: Clone> From<Range<T>> for UnifiedRange<T> {
    fn from(r: Range<T>) -> (u: Self)
        ensures
            is_range_from(Some(r.start), Some(r.end), false, u),
    {
        UnifiedRange { start: Bound::Includes(r.start.clone()), end: Bound::Excludes(r.end.clone()) }
    }
}

/// The ends are clones, known only through `cloned`: `from`'s own `ensures`
/// says what it returns.
impl<T: Clone> vstd::std_specs::convert::FromSpecImpl<Range<T>> for UnifiedRange<T> {
    open spec fn obeys_from_spec() -> bool {
        false
    }

    open spec fn from_spec(r: Range<T>) -> Self {
        choose|u: Self| is_range_from(Some(r.start), Some(r.end), false, u)
    }
}

impl<T: Clone> From<RangeFrom<T>> for UnifiedRange<T> {
    fn from(r: RangeFrom<T>) -> (u: Self)
        ensures
            is_range_from(Some(r.start), None, false, u),
    {
        UnifiedRange { start: Bound::Includes(r.start.clone()), end: Bound::Unbounded }
    }
}

/// The start is a clone: `from`'s own `ensures` says what it returns.
impl<T: Clone> vstd::std_specs::convert::FromSpecImpl<RangeFrom<T>> for UnifiedRange<T> {
    open spec fn obeys_from_spec() -> bool {
        false
    }

    open spec fn from_spec(r: RangeFrom<T>) -> Self {
        choose|u: Self| is_range_from(Some(r.start), None, false, u)
    }
}

impl<T: Clone> From<RangeTo<T>> for UnifiedRange<T> {
    fn from(r: RangeTo<T>) -> (u: Self)
        ensures
            is_range_from(None, Some(r.end), false, u),
    {
        UnifiedRange { start: Bound::Unbounded, end: Bound::Excludes(r.end.clone()) }
    }
}

/// The end is a clone: `from`'s own `ensures` says what it returns.
impl<T: Clone> vstd::std_specs::convert::FromSpecImpl<RangeTo<T>> for UnifiedRange<T> {
    open spec fn obeys_from_spec() -> bool {
        false
    }

    open spec fn from_spec(r: RangeTo<T>) -> Self {
        choose|u: Self| is_range_from(None, Some(r.end), false, u)
    }
}

impl<T: Clone> From<RangeToInclusive<T>> for UnifiedRange<T> {
    fn from(r: RangeToInclusive<T>) -> (u: Self)
        ensures
            is_range_from(None, Some(r.end), true, u),
    {
        UnifiedRange { start: Bound::Unbounded, end: Bound::Includes(r.end.clone()) }
    }
}

/// The end is a clone: `from`'s own `ensures` says what it returns.
impl<T: Clone> vstd::std_specs::convert::FromSpecImpl<RangeToInclusive<T>> for UnifiedRange<T> {
    open spec fn obeys_from_spec() -> bool {
        false
    }

    open spec fn from_spec(r: RangeToInclusive<T>) -> Self {
        choose|u: Self| is_range_from(None, Some(r.end), true, u)
    }
}

impl<T: Clone> From<RangeFull> for UnifiedRange<T> {
    fn from(r: RangeFull) -> (u: Self)
        ensures
            u == (UnifiedRange::<T> { start: Bound::Unbounded, end: Bound::Unbounded }),
    {
        UnifiedRange { start: Bound::Unbounded, end: Bound::Unbounded }
    }
}

impl<T: Clone> vstd::std_specs::convert::FromSpecImpl<RangeFull> for UnifiedRange<T> {
    open spec fn obeys_from_spec() -> bool {
        true
    }

    open spec fn from_spec(r: RangeFull) -> Self {
        UnifiedRange { start: Bound::Unbounded, end: Bound::Unbounded }
    }
}

/// What `UnifiedRange::from` makes of an inclusive range: it starts at a
/// clone of the start, and ends at a clone of the end, excluded once the
/// range is exhausted.
pub open spec fn is_range_from_inclusive<T: Clone>(r: RangeInclusive<T>, u: UnifiedRange<T>) -> bool {
    &&& u.start matches Bound::Includes(s) && vstd::pervasive::cloned(r@.start, s)
    &&& if r@.exhausted {
        u.end matches Bound::Excludes(e) && vstd::pervasive::cloned(r@.end, e)
    } else {
        u.end matches Bound::Includes(e) && vstd::pervasive::cloned(r@.end, e)
    }
}

impl<T: Clone> From<RangeInclusive<T>> for UnifiedRange<T> {
    fn from(r: RangeInclusive<T>) -> (u: Self)
        ensures
            is_range_from_inclusive(r, u),
    {
        let s = r.start().clone();
        let e = r.end().clone();
        let end = if range_inclusive_exhausted(&r) { Bound::Excludes(e) } else { Bound::Includes(e) };
        UnifiedRange { start: Bound::Includes(s), end }
    }
}

/// The ends are clones, known only through `cloned`, so `from` is not a
/// function of its argument as far as specs go: its own `ensures` says what
/// it returns.
impl<T: Clone> vstd::std_specs::convert::FromSpecImpl<RangeInclusive<T>> for UnifiedRange<T> {
    open spec fn obeys_from_spec() -> bool {
        false
    }

    open spec fn from_spec(r: RangeInclusive<T>) -> Self {
        choose|u: Self| is_range_from_inclusive(r, u)
    }
}

} // verus!
