use std::ops::Bound;

use range_check::result;
use range_check::text::{render_error, render_range};
use range_check::{copy_bound, Bounded, Bounds, Check, Contains, OutOfRangeError, Within};

#[derive(PartialEq, Eq, PartialOrd, Ord, Debug, Copy, Clone)]
enum Letter {
    A,
    B,
    C,
}

#[test]
fn thirteen_outside_zero_to_ten() {
    let err = 13.check_range(0..10).unwrap_err();
    assert_eq!(err.outside_value, 13);
    assert_eq!(err.allowed_range.lower, Bound::Included(0));
    assert_eq!(err.allowed_range.upper, Bound::Excluded(10));
    assert_eq!(err.to_string(), "value (13) outside of range (0..10)");
}

#[test]
fn value_inside_comes_back() {
    assert_eq!(24680.check_range(1..99999), Ok(24680));
    assert!(24680.check_range(1..9999).is_err());
}

#[test]
fn letters_at_the_edges() {
    assert_eq!(Letter::A.check_range(Letter::A..=Letter::C), Ok(Letter::A));
    let err = Letter::C.check_range(Letter::A..Letter::C).unwrap_err();
    assert_eq!(err.outside_value, Letter::C);
    assert_eq!(err.allowed_range.upper, Bound::Excluded(Letter::C));
}

#[test]
fn within_half_open_to() {
    assert!(3.is_within(&(..5)));
    assert!(!7.is_within(&(..5)));
    assert!(!5.is_within(&(..5)));
    assert!(5.is_within(&(..=5)));
    assert!(!(-7).is_within(&(1..)));
    assert!(1.is_within(&(1..)));
}

#[test]
fn contains_agrees_with_is_within() {
    let ranges = [0..10, 5..5, -3..4];
    for r in ranges.iter() {
        for v in -5..12 {
            assert_eq!(r.contains(&v), v.is_within(r));
            assert_eq!(Contains::contains(r, &v), v >= r.start && v < r.end);
        }
    }
}

#[test]
fn every_range_form() {
    for v in -2..8 {
        assert_eq!(Contains::contains(&(1..5), &v), v >= 1 && v < 5);
        assert_eq!(Contains::contains(&(1..=5), &v), v >= 1 && v <= 5);
        assert_eq!(Contains::contains(&(1..), &v), v >= 1);
        assert_eq!(Contains::contains(&(..5), &v), v < 5);
        assert_eq!(Contains::contains(&(..=5), &v), v <= 5);
        assert!(Contains::contains(&.., &v));
        let open = (Bound::Excluded(1), Bound::Excluded(5));
        assert_eq!(Contains::contains(&open, &v), v > 1 && v < 5);
    }
}

#[test]
fn bounds_of_every_form() {
    assert_eq!(Bounded::bounds(&(2..7)), Bounds { lower: Bound::Included(2), upper: Bound::Excluded(7) });
    assert_eq!(Bounded::bounds(&(2..=7)), Bounds { lower: Bound::Included(2), upper: Bound::Included(7) });
    assert_eq!(Bounded::bounds(&(2..)), Bounds { lower: Bound::Included(2), upper: Bound::Unbounded });
    assert_eq!(Bounded::bounds(&(..7)), Bounds { lower: Bound::Unbounded, upper: Bound::Excluded(7) });
    assert_eq!(Bounded::bounds(&(..=7)), Bounds { lower: Bound::Unbounded, upper: Bound::Included(7) });
    let full: Bounds<i32> = Bounded::bounds(&..);
    assert_eq!(full, Bounds { lower: Bound::Unbounded, upper: Bound::Unbounded });
    let open = (Bound::Excluded(2), Bound::Unbounded);
    assert_eq!(Bounded::bounds(&open), Bounds { lower: Bound::Excluded(2), upper: Bound::Unbounded });
}

#[test]
fn exhausted_inclusive_range_is_empty() {
    let mut r = 3..=3;
    assert_eq!(r.next(), Some(3));
    assert!(!Contains::contains(&r, &3));
    assert_eq!(Bounded::bounds(&r).upper, Bound::Excluded(3));
    assert!(3.check_range(r).is_err());
}

#[test]
fn accepted_value_is_unchanged() {
    for v in 0..10u8 {
        assert_eq!(v.check_range(0..10), Ok(v));
    }
}

#[test]
fn rejected_value_keeps_value_and_bounds() {
    let err = 200u8.check_range(10..=100).unwrap_err();
    assert_eq!(err.outside_value, 200);
    assert_eq!(err.allowed_range, Bounded::bounds(&(10..=100)));
}

#[test]
fn generify_keeps_edge_tags() {
    let b: Bounds<i8> = Bounds { lower: Bound::Included(5), upper: Bound::Excluded(-3) };
    let c: Bounds<i32> = b.convert();
    assert_eq!(c.lower, Bound::Included(5i32));
    assert_eq!(c.upper, Bound::Excluded(-3i32));
    let err: OutOfRangeError<i8> = 70i8.check_range(0..60).unwrap_err();
    let wide: OutOfRangeError<i16> = err.generify();
    assert_eq!(wide.outside_value, 70i16);
    assert_eq!(wide.allowed_range, Bounds { lower: Bound::Included(0i16), upper: Bound::Excluded(60i16) });
    let open: Bounds<u8> = Bounds { lower: Bound::Unbounded, upper: Bound::Included(9) };
    let open: Bounds<u64> = open.convert();
    assert_eq!(open, Bounds { lower: Bound::Unbounded, upper: Bound::Included(9u64) });
}

#[test]
fn copy_bound_keeps_tag_and_value() {
    let x = 42;
    assert_eq!(copy_bound(Bound::Included(&x)), Bound::Included(42));
    assert_eq!(copy_bound(Bound::Excluded(&x)), Bound::Excluded(42));
    assert_eq!(copy_bound::<i32>(Bound::Unbounded), Bound::Unbounded);
}

#[test]
fn rendering_of_each_form() {
    assert_eq!(Bounded::bounds(&(1..=9)).to_string(), "1..=9");
    assert_eq!(Bounded::bounds(&(1..)).to_string(), "1..");
    assert_eq!(Bounded::bounds(&(..9)).to_string(), "..9");
    assert_eq!(Bounded::bounds(&(..=9)).to_string(), "..=9");
    let full: Bounds<i32> = Bounded::bounds(&..);
    assert_eq!(full.to_string(), "..");
    let open = Bounds { lower: Bound::Excluded(1), upper: Bound::Excluded(9) };
    assert_eq!(open.to_string(), "1=..9");
    assert_eq!(
        Letter::C.check_range(..Letter::B).unwrap_err().to_string(),
        "value (C) outside of range (..B)"
    );
}

#[test]
fn rendering_from_texts() {
    let b = Bounds { lower: Bound::Included(String::from("a")), upper: Bound::Included(String::from("z")) };
    assert_eq!(render_range(&b), "a..=z");
    assert_eq!(render_error("q", &b), "value (q) outside of range (a..=z)");
    let e: Bounds<String> = Bounds { lower: Bound::Unbounded, upper: Bound::Unbounded };
    assert_eq!(render_error("", &e), "value () outside of range (..)");
}

#[test]
fn result_error_new_and_generify() {
    let err = result::Error::new(4u8, 1..4);
    assert_eq!(err.outside_value, 4);
    assert_eq!(err.allowed_range, Bounds { lower: Bound::Included(1), upper: Bound::Excluded(4) });
    assert_eq!(err.to_string(), "value (4) outside of range (1..4)");
    let wide: result::Error<i64> = err.generify();
    assert_eq!(wide.outside_value, 4i64);
    assert_eq!(wide.allowed_range.lower, Bound::Included(1i64));
    assert_eq!(wide.allowed_range.upper, Bound::Excluded(4i64));
}

#[test]
fn result_check_range() {
    assert_eq!(result::Check::check_range(23i8, 0..24), Ok(23));
    let err = result::Check::check_range(24i8, 0..24).unwrap_err();
    assert_eq!(err, result::Error::new(24i8, 0..24));
    assert!(result::Check::check_range(Letter::B, Letter::B..=Letter::B).is_ok());
    assert!(result::Check::check_range(Letter::A, Letter::B..).is_err());
}

#[test]
fn clone_keeps_error() {
    let err = 13.check_range(0..10).unwrap_err();
    assert_eq!(err.clone(), err);
    let b = Bounds { lower: Bound::Excluded(String::from("x")), upper: Bound::Unbounded };
    assert_eq!(b.clone(), b);
}
