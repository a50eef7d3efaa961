//! Membership of a value in a range, and the edges of each range form.
use std::ops::{Bound, Range, RangeFrom, RangeFull, RangeInclusive, RangeTo, RangeToInclusive};
use vstd::prelude::*;
use vstd::std_specs::cmp::{PartialOrdIs, PartialOrdSpec};

use crate::bounds::{copy_bound, Bounds};

verus! {

/// Makes the field of `std::ops::RangeFrom` visible to proofs.
#[verifier::external_type_specification]
#[verifier::reject_recursive_types(T)]
pub struct ExRangeFrom<T>(RangeFrom<T>);

/// Makes the field of `std::ops::RangeTo` visible to proofs.
#[verifier::external_type_specification]
#[verifier::reject_recursive_types(T)]
pub struct ExRangeTo<T>(RangeTo<T>);

/// Makes the field of `std::ops::RangeToInclusive` visible to proofs.
#[verifier::external_type_specification]
#[verifier::reject_recursive_types(T)]
pub struct ExRangeToInclusive<T>(RangeToInclusive<T>);

/// Makes `std::ops::RangeFull` known to proofs.
#[verifier::external_type_specification]
pub struct ExRangeFull(RangeFull);

/// Relies on `RangeBounds::start_bound` for `RangeInclusive`: the start is
/// always included.
pub assume_specification<T>[ <RangeInclusive<T> as std::ops::RangeBounds<T>>::start_bound ](
    range: &RangeInclusive<T>,
) -> (r: Bound<&T>)
    ensures
        r == Bound::Included(&range@.start),
;

/// Relies on `RangeBounds::end_bound` for `RangeInclusive`: the end is
/// included, unless iteration has used the range up, in which case it is
/// excluded so that the range contains nothing.
pub assume_specification<T>[ <RangeInclusive<T> as std::ops::RangeBounds<T>>::end_bound ](
    range: &RangeInclusive<T>,
) -> (r: Bound<&T>)
    ensures
        r == (if range@.exhausted {
            Bound::Excluded(&range@.end)
        } else {
            Bound::Included(&range@.end)
        }),
;

/// `v` lies on the inner side of the lower edge `lower`.
pub open spec fn lower_admits<T: PartialOrd>(lower: Bound<T>, v: T) -> bool {
    match lower {
        Bound::Included(a) => a.is_le(&v),
        Bound::Excluded(a) => a.is_lt(&v),
        Bound::Unbounded => true,
    }
}

/// `v` lies on the inner side of the upper edge `upper`.
pub open spec fn upper_admits<T: PartialOrd>(upper: Bound<T>, v: T) -> bool {
    match upper {
        Bound::Included(b) => v.is_le(&b),
        Bound::Excluded(b) => v.is_lt(&b),
        Bound::Unbounded => true,
    }
}

/// `v` lies between the two edges of `b`. A comparison that the order
/// leaves undecided counts as outside.
pub open spec fn bounds_admit<T: PartialOrd>(b: Bounds<T>, v: T) -> bool {
    lower_admits(b.lower, v) && upper_admits(b.upper, v)
}

/// A range whose two edges can be taken out as `Bounds`.
pub trait Bounded<T: Copy> {
    /// The edges of this range.
    spec fn spec_bounds(&self) -> Bounds<T>;

    /// Returns the edges of this range.
    fn bounds(&self) -> (r: Bounds<T>)
        ensures
            r == self.spec_bounds(),
    ;
}

/// A range that can test whether it holds a value.
pub trait Contains<T: PartialOrd + Copy>: Bounded<T> {
    /// Whether `value` lies in this range. Where the type's order is a
    /// lawful one, this is exactly whether the value lies between the
    /// range's edges.
    fn contains(&self, value: &T) -> (r: bool)
        ensures
            T::obeys_partial_cmp_spec() ==> r == bounds_admit(self.spec_bounds(), *value),
    ;
}

/// The same test as `Contains`, asked from the value's side.
pub trait Within<R: Contains<Self>>: PartialOrd + Copy {
    /// Whether `self` lies in `range`.
    fn is_within(&self, range: &R) -> (r: bool)
        ensures
            Self::obeys_partial_cmp_spec() ==> r == bounds_admit(range.spec_bounds(), *self),
    ;
}

impl<T: PartialOrd + Copy, R: Contains<T>> Within<R> for T {
    fn is_within(&self, range: &R) -> (r: bool) {
        range.contains(self)
    }
}

impl<T: Copy> Bounded<T> for Range<T> {
    open spec fn spec_bounds(&self) -> Bounds<T> {
        Bounds { lower: Bound::Included(self.start), upper: Bound::Excluded(self.end) }
    }

    fn bounds(&self) -> (r: Bounds<T>) {
        Bounds { lower: Bound::Included(self.start), upper: Bound::Excluded(self.end) }
    }
}

impl<T: PartialOrd + Copy> Contains<T> for Range<T> {
    fn contains(&self, value: &T) -> (r: bool) {
        self.start <= *value && *value < self.end
    }
}

impl<T: Copy> Bounded<T> for RangeInclusive<T> {
    open spec fn spec_bounds(&self) -> Bounds<T> {
        Bounds {
            lower: Bound::Included(self@.start),
            upper: if self@.exhausted {
                Bound::Excluded(self@.end)
            } else {
                Bound::Included(self@.end)
            },
        }
    }

    fn bounds(&self) -> (r: Bounds<T>) {
        Bounds {
            lower: copy_bound(std::ops::RangeBounds::start_bound(self)),
            upper: copy_bound(std::ops::RangeBounds::end_bound(self)),
        }
    }
}

impl<T: PartialOrd + Copy> Contains<T> for RangeInclusive<T> {
    fn contains(&self, value: &T) -> (r: bool) {
        RangeInclusive::contains(self, value)
    }
}

impl<T: Copy> Bounded<T> for RangeFrom<T> {
    open spec fn spec_bounds(&self) -> Bounds<T> {
        Bounds { lower: Bound::Included(self.start), upper: Bound::Unbounded }
    }

    fn bounds(&self) -> (r: Bounds<T>) {
        Bounds { lower: Bound::Included(self.start), upper: Bound::Unbounded }
    }
}

impl<T: PartialOrd + Copy> Contains<T> for RangeFrom<T> {
    fn contains(&self, value: &T) -> (r: bool) {
        self.start <= *value
    }
}

impl<T: Copy> Bounded<T> for RangeTo<T> {
    open spec fn spec_bounds(&self) -> Bounds<T> {
        Bounds { lower: Bound::Unbounded, upper: Bound::Excluded(self.end) }
    }

    fn bounds(&self) -> (r: Bounds<T>) {
        Bounds { lower: Bound::Unbounded, upper: Bound::Excluded(self.end) }
    }
}

impl<T: PartialOrd + Copy> Contains<T> for RangeTo<T> {
    fn contains(&self, value: &T) -> (r: bool) {
        *value < self.end
    }
}

impl<T: Copy> Bounded<T> for RangeToInclusive<T> {
    open spec fn spec_bounds(&self) -> Bounds<T> {
        Bounds { lower: Bound::Unbounded, upper: Bound::Included(self.end) }
    }

    fn bounds(&self) -> (r: Bounds<T>) {
        Bounds { lower: Bound::Unbounded, upper: Bound::Included(self.end) }
    }
}

impl<T: PartialOrd + Copy> Contains<T> for RangeToInclusive<T> {
    fn contains(&self, value: &T) -> (r: bool) {
        *value <= self.end
    }
}

impl<T: Copy> Bounded<T> for RangeFull {
    open spec fn spec_bounds(&self) -> Bounds<T> {
        Bounds { lower: Bound::Unbounded, upper: Bound::Unbounded }
    }

    fn bounds(&self) -> (r: Bounds<T>) {
        Bounds { lower: Bound::Unbounded, upper: Bound::Unbounded }
    }
}

impl<T: PartialOrd + Copy> Contains<T> for RangeFull {
    fn contains(&self, value: &T) -> (r: bool) {
        true
    }
}

impl<T: Copy> Bounded<T> for (Bound<T>, Bound<T>) {
    open spec fn spec_bounds(&self) -> Bounds<T> {
        Bounds { lower: self.0, upper: self.1 }
    }

    fn bounds(&self) -> (r: Bounds<T>) {
        Bounds { lower: self.0, upper: self.1 }
    }
}

impl<T: PartialOrd + Copy> Contains<T> for (Bound<T>, Bound<T>) {
    fn contains(&self, value: &T) -> (r: bool) {
        let above = match self.0 {
            Bound::Included(a) => a <= *value,
            Bound::Excluded(a) => a < *value,
            Bound::Unbounded => true,
        };
        let below = match self.1 {
            Bound::Included(b) => *value <= b,
            Bound::Excluded(b) => *value < b,
            Bound::Unbounded => true,
        };
        above && below
    }
}

/// Asking the range whether it contains a value and asking the value whether
/// it lies within the range give the same answer.
pub proof fn lemma_contains_is_within<T: PartialOrd + Copy, R: Contains<T>>(
    range: &R,
    value: &T,
    contained: bool,
    within: bool,
)
    requires
        T::obeys_partial_cmp_spec(),
        call_ensures(R::contains, (range, value), contained),
        call_ensures(<T as Within<R>>::is_within, (value, range), within),
    ensures
        contained == within,
{
}

/// `a..b` contains `v` exactly when `a <= v` and `v < b`.
pub proof fn lemma_contains_half_open<T: PartialOrd + Copy>(range: Range<T>, v: T, r: bool)
    requires
        T::obeys_partial_cmp_spec(),
        call_ensures(<Range<T> as Contains<T>>::contains, (&range, &v), r),
    ensures
        r == (range.start.is_le(&v) && v.is_lt(&range.end)),
{
}

/// `a..=b`, as written, contains `v` exactly when `a <= v` and `v <= b`.
pub proof fn lemma_contains_closed<T: PartialOrd + Copy>(range: RangeInclusive<T>, v: T, r: bool)
    requires
        T::obeys_partial_cmp_spec(),
        !range@.exhausted,
        call_ensures(<RangeInclusive<T> as Contains<T>>::contains, (&range, &v), r),
    ensures
        r == (range@.start.is_le(&v) && v.is_le(&range@.end)),
{
}

/// The pair `(Excluded(a), Excluded(b))` contains `v` exactly when `a < v`
/// and `v < b`.
pub proof fn lemma_contains_open<T: PartialOrd + Copy>(a: T, b: T, v: T, r: bool)
    requires
        T::obeys_partial_cmp_spec(),
        call_ensures(
            <(Bound<T>, Bound<T>) as Contains<T>>::contains,
            (&(Bound::Excluded(a), Bound::Excluded(b)), &v),
            r,
        ),
    ensures
        r == (a.is_lt(&v) && v.is_lt(&b)),
{
}

/// `a..` contains `v` exactly when `a <= v`.
pub proof fn lemma_contains_from<T: PartialOrd + Copy>(range: RangeFrom<T>, v: T, r: bool)
    requires
        T::obeys_partial_cmp_spec(),
        call_ensures(<RangeFrom<T> as Contains<T>>::contains, (&range, &v), r),
    ensures
        r == range.start.is_le(&v),
{
}

/// `..b` contains `v` exactly when `v < b`.
pub proof fn lemma_contains_to<T: PartialOrd + Copy>(range: RangeTo<T>, v: T, r: bool)
    requires
        T::obeys_partial_cmp_spec(),
        call_ensures(<RangeTo<T> as Contains<T>>::contains, (&range, &v), r),
    ensures
        r == v.is_lt(&range.end),
{
}

/// `..=b` contains `v` exactly when `v <= b`.
pub proof fn lemma_contains_to_inclusive<T: PartialOrd + Copy>(
    range: RangeToInclusive<T>,
    v: T,
    r: bool,
)
    requires
        T::obeys_partial_cmp_spec(),
        call_ensures(<RangeToInclusive<T> as Contains<T>>::contains, (&range, &v), r),
    ensures
        r == v.is_le(&range.end),
{
}

/// `..` contains every value.
pub proof fn lemma_contains_full<T: PartialOrd + Copy>(v: T, r: bool)
    requires
        T::obeys_partial_cmp_spec(),
        call_ensures(<RangeFull as Contains<T>>::contains, (&.., &v), r),
    ensures
        r,
{
}

} // verus!
