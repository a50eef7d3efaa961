//! Checking a value against a range, with an error that keeps both.
use vstd::prelude::*;
use vstd::std_specs::convert::FromSpec;
use vstd::std_specs::cmp::PartialOrdSpec;

use crate::bounds::{converted_bounds, Bounds};
use crate::interval::{bounds_admit, Bounded, Contains};

verus! {

/// The error that a failed `check_range` returns.
#[derive(PartialEq, Debug)]
#[verifier::reject_recursive_types(T)]
pub struct OutOfRangeError<T> {
    /// The bounds of the range that was searched.
    pub allowed_range: Bounds<T>,
    /// The value that lies outside of the range.
    pub outside_value: T,
}

impl<T: Clone> Clone for OutOfRangeError<T> {
    fn clone(&self) -> Self {
        OutOfRangeError {
            allowed_range: self.allowed_range.clone(),
            outside_value: self.outside_value.clone(),
        }
    }
}

/// Range checking that returns a `Result`, so that a failed check can end a
/// function early with `?`.
pub trait Check<R: Contains<Self>>: Sized + PartialOrd + Copy {
    /// Checks whether `self` is within the given range. If it is, returns
    /// `self` again; otherwise returns an error holding both the value and
    /// the range's bounds.
    fn check_range(self, range: R) -> (r: Result<Self, OutOfRangeError<Self>>)
        ensures
            match r {
                Ok(v) => v == self,
                Err(e) => e.outside_value == self && e.allowed_range == range.spec_bounds(),
            },
            Self::obeys_partial_cmp_spec() ==> (r is Ok <==> bounds_admit(
                range.spec_bounds(),
                self,
            )),
    ;
}

impl<T: PartialOrd + Copy, R: Contains<T>> Check<R> for T {
    fn check_range(self, range: R) -> (r: Result<Self, OutOfRangeError<Self>>) {
        if range.contains(&self) {
            Ok(self)
        } else {
            Err(OutOfRangeError { allowed_range: range.bounds(), outside_value: self })
        }
    }
}

/// `r` is `e` with every value passed through `U::from`.
pub open spec fn generified<T, U: From<T>>(e: OutOfRangeError<T>, r: OutOfRangeError<U>) -> bool {
    &&& converted_bounds(e.allowed_range, r.allowed_range)
    &&& call_ensures(U::from, (e.outside_value,), r.outside_value)
}

impl<T> OutOfRangeError<T> {
    /// Converts this error to one over another type, into which this one's
    /// values convert with `From`. Each edge keeps whether it is included,
    /// excluded or absent.
    pub fn generify<U: From<T>>(self) -> (r: OutOfRangeError<U>)
        ensures
            generified(self, r),
            U::obeys_from_spec() ==> r.outside_value == U::from_spec(self.outside_value),
    {
        OutOfRangeError {
            allowed_range: self.allowed_range.convert(),
            outside_value: self.outside_value.into(),
        }
    }
}

/// A value that the range contains comes back from `check_range` unchanged.
pub proof fn lemma_check_accepts<T: PartialOrd + Copy, R: Contains<T>>(
    value: T,
    range: R,
    contained: bool,
    r: Result<T, OutOfRangeError<T>>,
)
    requires
        T::obeys_partial_cmp_spec(),
        call_ensures(R::contains, (&range, &value), contained),
        call_ensures(<T as Check<R>>::check_range, (value, range), r),
        contained,
    ensures
        r == Ok::<T, OutOfRangeError<T>>(value),
{
}

/// A value that the range does not contain comes back from `check_range` as
/// an error holding that value and exactly the range's bounds.
pub proof fn lemma_check_rejects<T: PartialOrd + Copy, R: Contains<T>>(
    value: T,
    range: R,
    contained: bool,
    r: Result<T, OutOfRangeError<T>>,
)
    requires
        T::obeys_partial_cmp_spec(),
        call_ensures(R::contains, (&range, &value), contained),
        call_ensures(<T as Check<R>>::check_range, (value, range), r),
        !contained,
    ensures
        r matches Err(e) && e.outside_value == value && e.allowed_range == range.spec_bounds(),
{
}

} // verus!
