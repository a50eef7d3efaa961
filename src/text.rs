//! Human-readable rendering of bounds and of range errors, in the style of
//! range literals: `a..b`, `a..=b`, `a..`, `..b`, `..=b` and `..`.
use std::ops::Bound;
use vstd::prelude::*;

use crate::bounds::Bounds;
use crate::check::OutOfRangeError;
use crate::result::Error;

verus! {

/// The text of a lower edge whose value is already rendered.
pub open spec fn lower_text(b: Bound<String>) -> Seq<char> {
    match b {
        Bound::Included(s) => s@,
        Bound::Excluded(s) => s@ + "="@,
        Bound::Unbounded => Seq::empty(),
    }
}

/// The text of an upper edge whose value is already rendered.
pub open spec fn upper_text(b: Bound<String>) -> Seq<char> {
    match b {
        Bound::Included(s) => "="@ + s@,
        Bound::Excluded(s) => s@,
        Bound::Unbounded => Seq::empty(),
    }
}

/// The text of a pair of edges whose values are already rendered.
pub open spec fn range_text(b: Bounds<String>) -> Seq<char> {
    lower_text(b.lower) + ".."@ + upper_text(b.upper)
}

/// The text of an error, from the texts of its value and of its range.
pub open spec fn error_text(value: Seq<char>, range: Seq<char>) -> Seq<char> {
    "value ("@ + value + ") outside of range ("@ + range + ")"@
}

/// `a` and `b` are both absent, or have the same tag.
pub open spec fn same_tag<A, B>(a: Bound<A>, b: Bound<B>) -> bool {
    match (a, b) {
        (Bound::Included(_), Bound::Included(_)) => true,
        (Bound::Excluded(_), Bound::Excluded(_)) => true,
        (Bound::Unbounded, Bound::Unbounded) => true,
        _ => false,
    }
}

/// Both edges of `a` have the tags of the edges of `b`.
pub open spec fn same_shape<A, B>(a: Bounds<A>, b: Bounds<B>) -> bool {
    same_tag(a.lower, b.lower) && same_tag(a.upper, b.upper)
}

/// Relies on `format!("{:?}", ..)`: the `Debug` text of a value.
#[verifier::external_body]
fn debug_text<T: std::fmt::Debug>(value: &T) -> (r: String) {
    format!("{:?}", value)
}

fn debug_bound<T: std::fmt::Debug>(b: &Bound<T>) -> (r: Bound<String>)
    ensures
        same_tag(*b, r),
{
    match b {
        Bound::Included(v) => Bound::Included(debug_text(v)),
        Bound::Excluded(v) => Bound::Excluded(debug_text(v)),
        Bound::Unbounded => Bound::Unbounded,
    }
}

fn debug_bounds<T: std::fmt::Debug>(b: &Bounds<T>) -> (r: Bounds<String>)
    ensures
        same_shape(*b, r),
{
    Bounds { lower: debug_bound(&b.lower), upper: debug_bound(&b.upper) }
}

/// Renders a pair of edges whose values are already rendered: the lower
/// value, marked with `=` when excluded, then `..`, then the upper value,
/// preceded by `=` when included. An absent edge leaves its side empty.
pub fn render_range(b: &Bounds<String>) -> (r: String)
    ensures
        r@ == range_text(*b),
{
    let mut s = String::new();
    match &b.lower {
        Bound::Included(v) => s.append(v.as_str()),
        Bound::Excluded(v) => {
            s.append(v.as_str());
            s.append("=");
        },
        Bound::Unbounded => {},
    }
    s.append("..");
    match &b.upper {
        Bound::Included(v) => {
            s.append("=");
            s.append(v.as_str());
        },
        Bound::Excluded(v) => s.append(v.as_str()),
        Bound::Unbounded => {},
    }
    s
}

/// Renders an error from the text of its value and its edges:
/// `value (<value>) outside of range (<range>)`.
pub fn render_error(value: &str, range: &Bounds<String>) -> (r: String)
    ensures
        r@ == error_text(value@, range_text(*range)),
{
    let mut s = String::new();
    s.append("value (");
    s.append(value);
    s.append(") outside of range (");
    let range_str = render_range(range);
    s.append(range_str.as_str());
    s.append(")");
    s
}

impl<T: std::fmt::Debug> Bounds<T> {
    /// The range-literal text of these bounds, each value in its `Debug`
    /// form.
    pub fn to_string(&self) -> (r: String)
        ensures
            exists|t: Bounds<String>| same_shape(*self, t) && r@ == range_text(t),
    {
        let t = debug_bounds(self);
        let r = render_range(&t);
        assert(same_shape(*self, t) && r@ == range_text(t));
        r
    }
}

impl<T: std::fmt::Debug> OutOfRangeError<T> {
    /// The message `value (<value>) outside of range (<range>)`, with the
    /// value and the range's edges in their `Debug` form.
    pub fn to_string(&self) -> (r: String)
        ensures
            exists|v: String, t: Bounds<String>|
                same_shape(self.allowed_range, t) && r@ == error_text(v@, range_text(t)),
    {
        let v = debug_text(&self.outside_value);
        let t = debug_bounds(&self.allowed_range);
        let r = render_error(v.as_str(), &t);
        assert(same_shape(self.allowed_range, t) && r@ == error_text(v@, range_text(t)));
        r
    }
}

impl<T: std::fmt::Debug> Error<T> {
    /// The message `value (<value>) outside of range (<range>)`, with the
    /// value and the range's edges in their `Debug` form.
    pub fn to_string(&self) -> (r: String)
        ensures
            exists|v: String, t: Bounds<String>|
                same_shape(self.allowed_range, t) && r@ == error_text(v@, range_text(t)),
    {
        let v = debug_text(&self.outside_value);
        let t = debug_bounds(&self.allowed_range);
        let r = render_error(v.as_str(), &t);
        assert(same_shape(self.allowed_range, t) && r@ == error_text(v@, range_text(t)));
        r
    }
}

} // verus!
