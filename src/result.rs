//! A second form of the range check, whose error can also be built by hand
//! from a value and a range.
use vstd::prelude::*;
use vstd::std_specs::convert::FromSpec;
use vstd::std_specs::cmp::PartialOrdSpec;

use crate::bounds::{converted_bounds, Bounds};
use crate::interval::{bounds_admit, Bounded, Contains, Within};

verus! {

/// The error that a failed `check_range` returns.
#[derive(PartialEq, Debug)]
#[verifier::reject_recursive_types(T)]
pub struct Error<T> {
    /// The bounds of the range that was searched.
    pub allowed_range: Bounds<T>,
    /// The value that lies outside of the range.
    pub outside_value: T,
}

impl<T: Clone> Clone for Error<T> {
    fn clone(&self) -> Self {
        Error {
            allowed_range: self.allowed_range.clone(),
            outside_value: self.outside_value.clone(),
        }
    }
}

impl<T: Copy> Error<T> {
    /// Creates an error from a value and the bounds of the range it fell
    /// outside of, as when a number does not name any variant of an enum.
    pub fn new<R: Bounded<T>>(value: T, range: R) -> (r: Error<T>)
        ensures
            r.outside_value == value,
            r.allowed_range == range.spec_bounds(),
    {
        Error { outside_value: value, allowed_range: range.bounds() }
    }
}

impl<T> Error<T> {
    /// Converts every value in the error with `From`, so that checks over
    /// different types can share one error type. Each edge keeps whether it
    /// is included, excluded or absent.
    pub fn generify<U: From<T>>(self) -> (r: Error<U>)
        ensures
            converted_bounds(self.allowed_range, r.allowed_range),
            call_ensures(U::from, (self.outside_value,), r.outside_value),
            U::obeys_from_spec() ==> r.outside_value == U::from_spec(self.outside_value),
    {
        Error { outside_value: U::from(self.outside_value), allowed_range: self.allowed_range.convert() }
    }
}

/// Range checking that returns a `Result` whose error is `Error`.
pub trait Check<R: Contains<Self>>: Sized + PartialOrd + Copy {
    /// Checks whether `self` is within the given range. If it is, returns
    /// `self` again; otherwise returns an `Error` holding both the value and
    /// the range's bounds. Both `self` and the range are consumed.
    fn check_range(self, range: R) -> (r: Result<Self, Error<Self>>)
        ensures
            match r {
                Ok(v) => v == self,
                Err(e) => e.outside_value == self && e.allowed_range == range.spec_bounds(),
            },
            Self::obeys_partial_cmp_spec() ==> (r is Ok <==> bounds_admit(
                range.spec_bounds(),
                self,
            )),
    ;
}

impl<T: PartialOrd + Copy, R: Contains<T>> Check<R> for T {
    fn check_range(self, range: R) -> (r: Result<Self, Error<Self>>) {
        if self.is_within(&range) {
            Ok(self)
        } else {
            Err(Error::new(self, range))
        }
    }
}

} // verus!
