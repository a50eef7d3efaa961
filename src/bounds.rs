//! The two edges of a range, taken apart from the range itself.
use std::ops::Bound;
use vstd::prelude::*;
use vstd::std_specs::convert::FromSpec;

verus! {

/// Makes the variants of `std::ops::Bound` visible to proofs.
#[verifier::external_type_specification]
#[verifier::reject_recursive_types(T)]
pub struct ExBound<T>(Bound<T>);

/// The two bounds destructured from a range value.
#[derive(PartialEq, Debug)]
#[verifier::reject_recursive_types(T)]
pub struct Bounds<T> {
    /// The lower bound, as `start_bound` gives it.
    pub lower: Bound<T>,
    /// The upper bound, as `end_bound` gives it.
    pub upper: Bound<T>,
}

/// The edge that `b` points at, with its tag kept.
pub open spec fn deref_bound<T>(b: Bound<&T>) -> Bound<T> {
    match b {
        Bound::Included(v) => Bound::Included(*v),
        Bound::Excluded(v) => Bound::Excluded(*v),
        Bound::Unbounded => Bound::Unbounded,
    }
}

/// `b` has the same tag as `a`, and its value, if any, is what `U::from`
/// makes of the value of `a`.
pub open spec fn converted_bound<T, U: From<T>>(a: Bound<T>, b: Bound<U>) -> bool {
    match (a, b) {
        (Bound::Included(x), Bound::Included(y)) => call_ensures(U::from, (x,), y),
        (Bound::Excluded(x), Bound::Excluded(y)) => call_ensures(U::from, (x,), y),
        (Bound::Unbounded, Bound::Unbounded) => true,
        _ => false,
    }
}

/// Both edges of `b` are the edges of `a`, converted one by one.
pub open spec fn converted_bounds<T, U: From<T>>(a: Bounds<T>, b: Bounds<U>) -> bool {
    converted_bound(a.lower, b.lower) && converted_bound(a.upper, b.upper)
}

fn clone_bound<T: Clone>(b: &Bound<T>) -> (r: Bound<T>)
    ensures
        match (*b, r) {
            (Bound::Included(x), Bound::Included(y)) => call_ensures(T::clone, (&x,), y),
            (Bound::Excluded(x), Bound::Excluded(y)) => call_ensures(T::clone, (&x,), y),
            (Bound::Unbounded, Bound::Unbounded) => true,
            _ => false,
        },
{
    match b {
        Bound::Included(t) => Bound::Included(t.clone()),
        Bound::Excluded(t) => Bound::Excluded(t.clone()),
        Bound::Unbounded => Bound::Unbounded,
    }
}

impl<T: Clone> Clone for Bounds<T> {
    fn clone(&self) -> Self {
        Bounds { lower: clone_bound(&self.lower), upper: clone_bound(&self.upper) }
    }
}

fn convert_bound<T, U: From<T>>(b: Bound<T>) -> (r: Bound<U>)
    ensures
        converted_bound(b, r),
{
    match b {
        Bound::Included(t) => Bound::Included(U::from(t)),
        Bound::Excluded(t) => Bound::Excluded(U::from(t)),
        Bound::Unbounded => Bound::Unbounded,
    }
}

impl<T> Bounds<T> {
    /// Converts the value of each edge with `From`, keeping whether it is
    /// included, excluded or absent.
    pub fn convert<U: From<T>>(self) -> (r: Bounds<U>)
        ensures
            converted_bounds(self, r),
            U::obeys_from_spec() ==> r == (Bounds {
                lower: map_bound(self.lower, |t: T| U::from_spec(t)),
                upper: map_bound(self.upper, |t: T| U::from_spec(t)),
            }),
    {
        let lower = convert_bound(self.lower);
        let upper = convert_bound(self.upper);
        Bounds { lower, upper }
    }
}

/// `b` with `f` applied to its value, its tag kept.
pub open spec fn map_bound<T, U>(b: Bound<T>, f: spec_fn(T) -> U) -> Bound<U> {
    match b {
        Bound::Included(v) => Bound::Included(f(v)),
        Bound::Excluded(v) => Bound::Excluded(f(v)),
        Bound::Unbounded => Bound::Unbounded,
    }
}

/// Turns a bound on a reference into a bound on the value it refers to.
pub fn copy_bound<T: Copy>(bound: Bound<&T>) -> (r: Bound<T>)
    ensures
        r == deref_bound(bound),
{
    match bound {
        Bound::Unbounded => Bound::Unbounded,
        Bound::Included(n) => Bound::Included(*n),
        Bound::Excluded(n) => Bound::Excluded(*n),
    }
}

} // verus!
