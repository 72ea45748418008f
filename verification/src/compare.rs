//! Equality and ordering among [`bool8`], [`bool32`] and the native `bool`.
//!
//! Every comparison first normalizes both sides to a native boolean and then compares
//! those, so the width of the storage and the exact nonzero bit pattern never matter.

use vstd::prelude::*;
use vstd::std_specs::cmp::PartialEqSpecImpl;
use vstd::std_specs::cmp::PartialOrdSpecImpl;
use core::cmp::Ordering;
use crate::narrow::bool8;
use crate::wide::bool32;

verus! {

/// The order of two native booleans, with `false` before `true`.
pub open spec fn bool_order(a: bool, b: bool) -> Ordering {
    if a == b {
        Ordering::Equal
    } else if b {
        Ordering::Less
    } else {
        Ordering::Greater
    }
}

/// Orders two native booleans, with `false` before `true`.
///
/// The one place where an order is computed: every `partial_cmp` and `cmp` below
/// normalizes its operands and calls this.
pub fn compare_bools(a: bool, b: bool) -> (r: Ordering)
    ensures
        r == bool_order(a, b),
{
    if a == b {
        Ordering::Equal
    } else if b {
        Ordering::Less
    } else {
        Ordering::Greater
    }
}

impl PartialEq<bool8> for bool8 {
    /// Whether two `bool8` values have the same truth value.
    fn eq(&self, other: &bool8) -> (r: bool)
        ensures
            r == (self.truthy() == other.truthy()),
    {
        bool::from(*self) == bool::from(*other)
    }
}

impl PartialEqSpecImpl<bool8> for bool8 {
    open spec fn obeys_eq_spec() -> bool {
        true
    }

    open spec fn eq_spec(&self, other: &bool8) -> bool {
        self.truthy() == other.truthy()
    }
}

impl PartialEq<bool32> for bool32 {
    /// Whether two `bool32` values have the same truth value.
    fn eq(&self, other: &bool32) -> (r: bool)
        ensures
            r == (self.truthy() == other.truthy()),
    {
        bool::from(*self) == bool::from(*other)
    }
}

impl PartialEqSpecImpl<bool32> for bool32 {
    open spec fn obeys_eq_spec() -> bool {
        true
    }

    open spec fn eq_spec(&self, other: &bool32) -> bool {
        self.truthy() == other.truthy()
    }
}

impl PartialEq<bool32> for bool8 {
    /// Whether a `bool8` and a `bool32` have the same truth value.
    fn eq(&self, other: &bool32) -> (r: bool)
        ensures
            r == (self.truthy() == other.truthy()),
    {
        bool::from(*self) == bool::from(*other)
    }
}

impl PartialEqSpecImpl<bool32> for bool8 {
    open spec fn obeys_eq_spec() -> bool {
        true
    }

    open spec fn eq_spec(&self, other: &bool32) -> bool {
        self.truthy() == other.truthy()
    }
}

impl PartialEq<bool8> for bool32 {
    /// Whether a `bool32` and a `bool8` have the same truth value.
    fn eq(&self, other: &bool8) -> (r: bool)
        ensures
            r == (self.truthy() == other.truthy()),
    {
        bool::from(*self) == bool::from(*other)
    }
}

impl PartialEqSpecImpl<bool8> for bool32 {
    open spec fn obeys_eq_spec() -> bool {
        true
    }

    open spec fn eq_spec(&self, other: &bool8) -> bool {
        self.truthy() == other.truthy()
    }
}

impl PartialEq<bool> for bool8 {
    /// Whether a `bool8` and a native boolean have the same truth value.
    fn eq(&self, other: &bool) -> (r: bool)
        ensures
            r == (self.truthy() == *other),
    {
        bool::from(*self) == *other
    }
}

impl PartialEqSpecImpl<bool> for bool8 {
    open spec fn obeys_eq_spec() -> bool {
        true
    }

    open spec fn eq_spec(&self, other: &bool) -> bool {
        self.truthy() == *other
    }
}

impl PartialEq<bool> for bool32 {
    /// Whether a `bool32` and a native boolean have the same truth value.
    fn eq(&self, other: &bool) -> (r: bool)
        ensures
            r == (self.truthy() == *other),
    {
        bool::from(*self) == *other
    }
}

impl PartialEqSpecImpl<bool> for bool32 {
    open spec fn obeys_eq_spec() -> bool {
        true
    }

    open spec fn eq_spec(&self, other: &bool) -> bool {
        self.truthy() == *other
    }
}

impl PartialEq<bool8> for bool {
    /// Whether a native boolean and a `bool8` have the same truth value.
    fn eq(&self, other: &bool8) -> (r: bool)
        ensures
            r == (*self == other.truthy()),
    {
        *self == bool::from(*other)
    }
}

impl PartialEqSpecImpl<bool8> for bool {
    open spec fn obeys_eq_spec() -> bool {
        true
    }

    open spec fn eq_spec(&self, other: &bool8) -> bool {
        *self == other.truthy()
    }
}

impl PartialEq<bool32> for bool {
    /// Whether a native boolean and a `bool32` have the same truth value.
    fn eq(&self, other: &bool32) -> (r: bool)
        ensures
            r == (*self == other.truthy()),
    {
        *self == bool::from(*other)
    }
}

impl PartialEqSpecImpl<bool32> for bool {
    open spec fn obeys_eq_spec() -> bool {
        true
    }

    open spec fn eq_spec(&self, other: &bool32) -> bool {
        *self == other.truthy()
    }
}

impl Eq for bool8 {}

impl Eq for bool32 {}

impl PartialOrd<bool8> for bool8 {
    /// Orders two `bool8` values by truth value; the answer is never `None`.
    fn partial_cmp(&self, other: &bool8) -> (r: Option<Ordering>)
        ensures
            r == Some(bool_order(self.truthy(), other.truthy())),
    {
        Some(compare_bools(bool::from(*self), bool::from(*other)))
    }
}

impl PartialOrdSpecImpl<bool8> for bool8 {
    open spec fn obeys_partial_cmp_spec() -> bool {
        true
    }

    open spec fn partial_cmp_spec(&self, other: &bool8) -> Option<Ordering> {
        Some(bool_order(self.truthy(), other.truthy()))
    }
}

impl PartialOrd<bool32> for bool32 {
    /// Orders two `bool32` values by truth value; the answer is never `None`.
    fn partial_cmp(&self, other: &bool32) -> (r: Option<Ordering>)
        ensures
            r == Some(bool_order(self.truthy(), other.truthy())),
    {
        Some(compare_bools(bool::from(*self), bool::from(*other)))
    }
}

impl PartialOrdSpecImpl<bool32> for bool32 {
    open spec fn obeys_partial_cmp_spec() -> bool {
        true
    }

    open spec fn partial_cmp_spec(&self, other: &bool32) -> Option<Ordering> {
        Some(bool_order(self.truthy(), other.truthy()))
    }
}

impl PartialOrd<bool32> for bool8 {
    /// Orders a `bool8` against a `bool32` by truth value; the answer is never `None`.
    fn partial_cmp(&self, other: &bool32) -> (r: Option<Ordering>)
        ensures
            r == Some(bool_order(self.truthy(), other.truthy())),
    {
        Some(compare_bools(bool::from(*self), bool::from(*other)))
    }
}

impl PartialOrdSpecImpl<bool32> for bool8 {
    open spec fn obeys_partial_cmp_spec() -> bool {
        true
    }

    open spec fn partial_cmp_spec(&self, other: &bool32) -> Option<Ordering> {
        Some(bool_order(self.truthy(), other.truthy()))
    }
}

impl PartialOrd<bool8> for bool32 {
    /// Orders a `bool32` against a `bool8` by truth value; the answer is never `None`.
    fn partial_cmp(&self, other: &bool8) -> (r: Option<Ordering>)
        ensures
            r == Some(bool_order(self.truthy(), other.truthy())),
    {
        Some(compare_bools(bool::from(*self), bool::from(*other)))
    }
}

impl PartialOrdSpecImpl<bool8> for bool32 {
    open spec fn obeys_partial_cmp_spec() -> bool {
        true
    }

    open spec fn partial_cmp_spec(&self, other: &bool8) -> Option<Ordering> {
        Some(bool_order(self.truthy(), other.truthy()))
    }
}

impl PartialOrd<bool> for bool8 {
    /// Orders a `bool8` against a native boolean by truth value; the answer is never `None`.
    fn partial_cmp(&self, other: &bool) -> (r: Option<Ordering>)
        ensures
            r == Some(bool_order(self.truthy(), *other)),
    {
        Some(compare_bools(bool::from(*self), *other))
    }
}

impl PartialOrdSpecImpl<bool> for bool8 {
    open spec fn obeys_partial_cmp_spec() -> bool {
        true
    }

    open spec fn partial_cmp_spec(&self, other: &bool) -> Option<Ordering> {
        Some(bool_order(self.truthy(), *other))
    }
}

impl PartialOrd<bool> for bool32 {
    /// Orders a `bool32` against a native boolean by truth value; the answer is never `None`.
    fn partial_cmp(&self, other: &bool) -> (r: Option<Ordering>)
        ensures
            r == Some(bool_order(self.truthy(), *other)),
    {
        Some(compare_bools(bool::from(*self), *other))
    }
}

impl PartialOrdSpecImpl<bool> for bool32 {
    open spec fn obeys_partial_cmp_spec() -> bool {
        true
    }

    open spec fn partial_cmp_spec(&self, other: &bool) -> Option<Ordering> {
        Some(bool_order(self.truthy(), *other))
    }
}

impl PartialOrd<bool8> for bool {
    /// Orders a native boolean against a `bool8` by truth value; the answer is never `None`.
    fn partial_cmp(&self, other: &bool8) -> (r: Option<Ordering>)
        ensures
            r == Some(bool_order(*self, other.truthy())),
    {
        Some(compare_bools(*self, bool::from(*other)))
    }
}

impl PartialOrdSpecImpl<bool8> for bool {
    open spec fn obeys_partial_cmp_spec() -> bool {
        true
    }

    open spec fn partial_cmp_spec(&self, other: &bool8) -> Option<Ordering> {
        Some(bool_order(*self, other.truthy()))
    }
}

impl PartialOrd<bool32> for bool {
    /// Orders a native boolean against a `bool32` by truth value; the answer is never `None`.
    fn partial_cmp(&self, other: &bool32) -> (r: Option<Ordering>)
        ensures
            r == Some(bool_order(*self, other.truthy())),
    {
        Some(compare_bools(*self, bool::from(*other)))
    }
}

impl PartialOrdSpecImpl<bool32> for bool {
    open spec fn obeys_partial_cmp_spec() -> bool {
        true
    }

    open spec fn partial_cmp_spec(&self, other: &bool32) -> Option<Ordering> {
        Some(bool_order(*self, other.truthy()))
    }
}

impl bool8 {
    /// The total order on `bool8`: falsy before truthy, and all truthy values tied.
    pub fn cmp(&self, other: &bool8) -> (r: Ordering)
        ensures
            r == bool_order(self.truthy(), other.truthy()),
    {
        compare_bools(bool::from(*self), bool::from(*other))
    }
}

impl bool32 {
    /// The total order on `bool32`: falsy before truthy, and all truthy values tied.
    pub fn cmp(&self, other: &bool32) -> (r: Ordering)
        ensures
            r == bool_order(self.truthy(), other.truthy()),
    {
        compare_bools(bool::from(*self), bool::from(*other))
    }
}

} // verus!
