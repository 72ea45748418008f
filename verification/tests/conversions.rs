use abibool::b32;
use abibool::b8;
use abibool::bool32;
use abibool::bool8;
use std::borrow::Borrow;

#[test]
fn narrow_raw_normalizes_by_zero() {
    for v in 0..=u8::MAX {
        assert_eq!(bool::from(bool8::from(v)), v != 0);
    }
}

#[test]
fn wide_raw_normalizes_by_zero() {
    for v in [0, 1, 2, -1, 5, 42, 255, 256, i32::MAX, i32::MIN, -2, 0x1_0000] {
        assert_eq!(bool::from(bool32::from(v)), v != 0);
    }
}

#[test]
fn native_round_trips_through_canonical_bits() {
    for b in [false, true] {
        assert_eq!(bool8::from(b as u8), b);
        assert_eq!(bool32::from(b as i32), b);
        assert_eq!(bool::from(bool8::from(b)), b);
        assert_eq!(bool::from(bool32::from(b)), b);
    }
}

#[test]
fn native_is_stored_canonically() {
    assert_eq!(u8::from(bool8::from(false)), 0);
    assert_eq!(u8::from(bool8::from(true)), 1);
    assert_eq!(i32::from(bool32::from(false)), 0);
    assert_eq!(i32::from(bool32::from(true)), 1);
}

#[test]
fn narrow_raw_round_trip_is_exact() {
    for v in 0..=u8::MAX {
        assert_eq!(u8::from(bool8::from(v)), v);
    }
    assert_eq!(u8::from(bool8::from(2u8)), 2);
    assert_eq!(u8::from(bool8::from(255u8)), 255);
}

#[test]
fn wide_raw_round_trip_is_exact() {
    for v in [0, 1, 2, -1, 5, 42, 255, 256, i32::MAX, i32::MIN] {
        assert_eq!(i32::from(bool32::from(v)), v);
    }
    assert_eq!(i32::from(bool32::from(-1i32)), -1);
    assert_eq!(i32::from(bool32::from(2i32)), 2);
}

#[test]
fn named_values_hold_zero_and_one() {
    assert_eq!(u8::from(bool8::FALSE()), 0);
    assert_eq!(u8::from(bool8::TRUE()), 1);
    assert_eq!(i32::from(bool32::FALSE()), 0);
    assert_eq!(i32::from(bool32::TRUE()), 1);
    assert_eq!(bool::from(bool8::FALSE()), false);
    assert_eq!(bool::from(bool8::TRUE()), true);
    assert_eq!(bool::from(bool32::FALSE()), false);
    assert_eq!(bool::from(bool32::TRUE()), true);
}

#[test]
fn default_is_false_and_falsy() {
    let n = bool8::default();
    let w = bool32::default();
    assert_eq!(u8::from(n), 0);
    assert_eq!(i32::from(w), 0);
    assert_eq!(n, bool8::FALSE());
    assert_eq!(w, bool32::FALSE());
    assert_eq!(bool::from(n), false);
    assert_eq!(bool::from(w), false);
    assert!(!n);
    assert!(!w);
}

#[test]
fn negation_gives_native_boolean() {
    assert_eq!(!bool8::from(7u8), false);
    assert_eq!(!bool8::from(0u8), true);
    assert_eq!(!bool32::from(-7i32), false);
    assert_eq!(!bool32::from(0i32), true);
    assert_eq!(!bool8::from(true), false);
    assert_eq!(!bool32::from(false), true);
}

#[test]
fn generic_constructor_takes_native_raw_and_self() {
    assert_eq!(u8::from(bool8::from(true)), 1);
    assert_eq!(u8::from(bool8::from(9u8)), 9);
    assert_eq!(u8::from(bool8::from(bool8::from(9u8))), 9);
    assert_eq!(i32::from(bool32::from(true)), 1);
    assert_eq!(i32::from(bool32::from(-9i32)), -9);
    assert_eq!(i32::from(bool32::from(bool32::from(-9i32))), -9);
}

#[test]
fn into_agrees_with_from() {
    let n: bool8 = 3u8.into();
    let w: bool32 = (-3i32).into();
    let raw_n: u8 = n.into();
    let raw_w: i32 = w.into();
    let native_n: bool = n.into();
    let native_w: bool = w.into();
    assert_eq!(raw_n, 3);
    assert_eq!(raw_w, -3);
    assert!(native_n);
    assert!(native_w);
}

#[test]
fn deref_reads_the_stored_bits() {
    let n = bool8::from(42u8);
    let w = bool32::from(-42i32);
    assert_eq!(*n, 42);
    assert_eq!(*w, -42);
    assert_eq!(n.count_ones(), 3);
    assert_eq!(w.abs(), 42);
}

#[test]
fn deref_mut_writes_any_bit_pattern() {
    let mut n = bool8::FALSE();
    *n = 200;
    assert_eq!(u8::from(n), 200);
    assert_eq!(n, true);
    *n = 0;
    assert_eq!(n, false);
    let mut w = bool32::TRUE();
    *w = -1;
    assert_eq!(i32::from(w), -1);
    assert_eq!(w, true);
    *w = 0;
    assert_eq!(w, false);
}

#[test]
fn reference_views_the_storage_in_place() {
    let n = bool8::from(17u8);
    let w = bool32::from(-17i32);
    let rn: &u8 = (&n).into();
    let rw: &i32 = (&w).into();
    assert_eq!(*rn, 17);
    assert_eq!(*rw, -17);
    assert!(std::ptr::eq(rn, &*n));
    assert!(std::ptr::eq(rw, &*w));
}

#[test]
fn as_ref_and_borrow_give_the_normalized_boolean() {
    let t = bool8::from(2u8);
    let f = bool8::from(0u8);
    let tw = bool32::from(-2i32);
    let fw = bool32::from(0i32);
    let r: &bool = t.as_ref();
    assert_eq!(*r, true);
    let r: &bool = f.as_ref();
    assert_eq!(*r, false);
    let r: &bool = tw.as_ref();
    assert_eq!(*r, true);
    let r: &bool = fw.as_ref();
    assert_eq!(*r, false);
    let r: &bool = t.borrow();
    assert_eq!(*r, true);
    let r: &bool = f.borrow();
    assert_eq!(*r, false);
    let r: &bool = tw.borrow();
    assert_eq!(*r, true);
    let r: &bool = fw.borrow();
    assert_eq!(*r, false);
}

#[test]
fn copies_keep_the_bits() {
    let n = bool8::from(77u8);
    let m = n;
    let c = n.clone();
    assert_eq!(u8::from(m), 77);
    assert_eq!(u8::from(c), 77);
    assert_eq!(u8::from(n), 77);
    let w = bool32::from(i32::MIN);
    let x = w;
    assert_eq!(i32::from(x), i32::MIN);
    assert_eq!(i32::from(w), i32::MIN);
}

#[test]
fn short_names_are_the_same_types() {
    let n: b8 = bool8::from(6u8);
    let w: b32 = bool32::from(6i32);
    assert_eq!(u8::from(n), 6);
    assert_eq!(i32::from(w), 6);
    assert_eq!(std::mem::size_of::<bool8>(), 1);
    assert_eq!(std::mem::size_of::<bool32>(), 4);
}
