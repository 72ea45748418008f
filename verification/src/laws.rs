//! What holds of the two boolean types for all values, proved from the specifications
//! of their conversions and comparisons.

use vstd::prelude::*;
use vstd::std_specs::cmp::PartialEqSpec;
use vstd::std_specs::cmp::PartialOrdSpec;
use vstd::std_specs::convert::FromSpec;
use core::cmp::Ordering;
use core::hash::Hasher;
use crate::narrow::bool8;
use crate::narrow::canonical8;
use crate::std_specs::feed_bool;
use crate::wide::bool32;
use crate::wide::canonical32;

verus! {

/// A raw byte wrapped as a `bool8` normalizes to `true` exactly when the byte is not
/// zero.
pub proof fn lemma_narrow_normalizes_by_zero(v: u8)
    ensures
        bool::from_spec(bool8::from_spec(v)) == (v != 0),
{
}

/// A raw integer wrapped as a `bool32` normalizes to `true` exactly when the integer is
/// not zero.
pub proof fn lemma_wide_normalizes_by_zero(v: i32)
    ensures
        bool::from_spec(bool32::from_spec(v)) == (v != 0),
{
}

/// A native boolean survives the trip through its canonical bit pattern: wrapping the
/// pattern gives a value that equals and normalizes to the boolean, and wrapping the
/// boolean itself stores that same pattern.
pub proof fn lemma_native_round_trip(b: bool)
    ensures
        bool8::from_spec(canonical8(b)).eq_spec(&b),
        bool32::from_spec(canonical32(b)).eq_spec(&b),
        bool::from_spec(bool8::from_spec(canonical8(b))) == b,
        bool::from_spec(bool32::from_spec(canonical32(b))) == b,
        bool8::from_spec(b) == bool8::from_spec(canonical8(b)),
        bool32::from_spec(b) == bool32::from_spec(canonical32(b)),
{
}

/// Wrapping a raw byte and unwrapping it gives the byte back, bit for bit, also where
/// the byte is a truthy pattern other than `1`.
pub proof fn lemma_narrow_keeps_bits(v: u8)
    ensures
        u8::from_spec(bool8::from_spec(v)) == v,
        bool8::from_spec(v)@ == v,
{
}

/// Wrapping a raw integer and unwrapping it gives the integer back, bit for bit, also
/// where the integer is a truthy pattern other than `1`.
pub proof fn lemma_wide_keeps_bits(v: i32)
    ensures
        i32::from_spec(bool32::from_spec(v)) == v,
        bool32::from_spec(v)@ == v,
{
}

/// Values that compare equal have the same hash key, whatever their widths and bit
/// patterns; a value that equals a native boolean has that boolean as its key.
pub proof fn lemma_equal_values_share_hash_key(a: bool8, b: bool8, c: bool32, d: bool32, n: bool)
    ensures
        a.eq_spec(&b) ==> a.hash_key() == b.hash_key(),
        c.eq_spec(&d) ==> c.hash_key() == d.hash_key(),
        a.eq_spec(&c) ==> a.hash_key() == c.hash_key(),
        c.eq_spec(&a) ==> c.hash_key() == a.hash_key(),
        a.eq_spec(&n) ==> a.hash_key() == n,
        c.eq_spec(&n) ==> c.hash_key() == n,
        n.eq_spec(&a) ==> n == a.hash_key(),
        n.eq_spec(&c) ==> n == c.hash_key(),
{
}

/// Equal values hash alike in every hasher: whatever hashing one of them can do to a
/// hasher, hashing the other can do, since both come down to feeding the same native
/// boolean. Against a native boolean, that boolean itself is what is fed.
pub proof fn lemma_equal_values_hash_alike<H: Hasher>(a: bool8, b: bool8, c: bool32, d: bool32, n: bool)
    ensures
        a.eq_spec(&b) ==> forall|sink: &mut H|
            call_ensures(feed_bool::<H>, (a.hash_key(), sink), ()) == call_ensures(
                feed_bool::<H>,
                (b.hash_key(), sink),
                (),
            ),
        c.eq_spec(&d) ==> forall|sink: &mut H|
            call_ensures(feed_bool::<H>, (c.hash_key(), sink), ()) == call_ensures(
                feed_bool::<H>,
                (d.hash_key(), sink),
                (),
            ),
        a.eq_spec(&c) ==> forall|sink: &mut H|
            call_ensures(feed_bool::<H>, (a.hash_key(), sink), ()) == call_ensures(
                feed_bool::<H>,
                (c.hash_key(), sink),
                (),
            ),
        a.eq_spec(&n) ==> forall|sink: &mut H|
            call_ensures(feed_bool::<H>, (a.hash_key(), sink), ()) == call_ensures(
                feed_bool::<H>,
                (n, sink),
                (),
            ),
        c.eq_spec(&n) ==> forall|sink: &mut H|
            call_ensures(feed_bool::<H>, (c.hash_key(), sink), ()) == call_ensures(
                feed_bool::<H>,
                (n, sink),
                (),
            ),
{
}

/// A falsy value is less than a truthy one, in each type, across the two widths and
/// against the native booleans.
pub proof fn lemma_falsy_before_truthy(lo8: bool8, hi8: bool8, lo32: bool32, hi32: bool32)
    requires
        !lo8.truthy(),
        hi8.truthy(),
        !lo32.truthy(),
        hi32.truthy(),
    ensures
        lo8.partial_cmp_spec(&hi8) == Some(Ordering::Less),
        lo32.partial_cmp_spec(&hi32) == Some(Ordering::Less),
        lo8.partial_cmp_spec(&hi32) == Some(Ordering::Less),
        lo32.partial_cmp_spec(&hi8) == Some(Ordering::Less),
        lo8.partial_cmp_spec(&true) == Some(Ordering::Less),
        lo32.partial_cmp_spec(&true) == Some(Ordering::Less),
        false.partial_cmp_spec(&hi8) == Some(Ordering::Less),
        false.partial_cmp_spec(&hi32) == Some(Ordering::Less),
        hi8.partial_cmp_spec(&lo8) == Some(Ordering::Greater),
        hi32.partial_cmp_spec(&lo32) == Some(Ordering::Greater),
        hi8.partial_cmp_spec(&lo32) == Some(Ordering::Greater),
        hi32.partial_cmp_spec(&lo8) == Some(Ordering::Greater),
{
}

/// Values of the same truth are tied in the order and equal, across the two widths:
/// neither is less than the other.
pub proof fn lemma_same_truth_ties(a: bool8, b: bool32)
    requires
        a.truthy() == b.truthy(),
    ensures
        a.partial_cmp_spec(&b) == Some(Ordering::Equal),
        b.partial_cmp_spec(&a) == Some(Ordering::Equal),
        a.eq_spec(&b),
        b.eq_spec(&a),
{
}

} // verus!
