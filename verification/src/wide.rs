//! The 32-bit boolean: four bytes of signed storage in which every bit pattern is a
//! legal value.

use vstd::prelude::*;
use vstd::std_specs::convert::FromSpecImpl;
use vstd::std_specs::convert::IntoSpec;
use vstd::std_specs::ops::NotSpecImpl;
use core::borrow::Borrow;
use core::ops::Deref;
use core::ops::DerefMut;
use core::ops::Not;

verus! {

/// 32-bit boolean that keeps whatever integer it was given.
///
/// `0` is falsy, every other bit pattern is truthy. Comparison, ordering and hashing
/// go by that truth value and never by the stored bits, so `bool32(1)` and `bool32(-1)`
/// are equal to each other and to `true`.
#[allow(non_camel_case_types)]
#[derive(Clone, Copy)]
pub struct bool32(pub i32);

/// The bit pattern that a native boolean is stored as: `0` for `false`, `1` for `true`.
pub open spec fn canonical32(value: bool) -> i32 {
    if value {
        1
    } else {
        0
    }
}

impl View for bool32 {
    type V = i32;

    /// The stored bit pattern, exactly as it was written.
    open spec fn view(&self) -> i32 {
        self.0
    }
}

impl bool32 {
    /// The native boolean that the stored bits stand for.
    pub open spec fn truthy(self) -> bool {
        self@ != 0
    }

    /// The falsy value, stored as `0`.
    ///
    /// A function rather than an associated constant, so that it carries a contract.
    #[allow(non_snake_case)]
    pub fn FALSE() -> (r: bool32)
        ensures
            r@ == 0,
            !r.truthy(),
    {
        bool32(0)
    }

    /// The canonical truthy value, stored as `1`.
    ///
    /// A function rather than an associated constant, so that it carries a contract.
    #[allow(non_snake_case)]
    pub fn TRUE() -> (r: bool32)
        ensures
            r@ == 1,
            r.truthy(),
    {
        bool32(1)
    }

    /// Builds a `bool32` from anything that converts into one: a native boolean
    /// (stored canonically) or a raw integer (stored verbatim).
    pub fn from<T: Into<bool32>>(value: T) -> (r: bool32)
        ensures
            T::obeys_into_spec() ==> r == value.into_spec(),
            call_ensures(T::into, (value,), r),
    {
        value.into()
    }
}

impl From<bool> for bool32 {
    /// Stores a native boolean in its canonical bit pattern.
    fn from(value: bool) -> (r: bool32)
        ensures
            r@ == canonical32(value),
            r.truthy() == value,
    {
        if value {
            bool32(1)
        } else {
            bool32(0)
        }
    }
}

impl FromSpecImpl<bool> for bool32 {
    open spec fn obeys_from_spec() -> bool {
        true
    }

    open spec fn from_spec(value: bool) -> bool32 {
        bool32(canonical32(value))
    }
}

impl From<i32> for bool32 {
    /// Wraps a raw integer without looking at it.
    fn from(value: i32) -> (r: bool32)
        ensures
            r@ == value,
    {
        bool32(value)
    }
}

impl FromSpecImpl<i32> for bool32 {
    open spec fn obeys_from_spec() -> bool {
        true
    }

    open spec fn from_spec(value: i32) -> bool32 {
        bool32(value)
    }
}

impl From<bool32> for i32 {
    /// Hands the stored integer back, not normalized.
    fn from(value: bool32) -> (r: i32)
        ensures
            r == value@,
    {
        value.0
    }
}

impl FromSpecImpl<bool32> for i32 {
    open spec fn obeys_from_spec() -> bool {
        true
    }

    open spec fn from_spec(value: bool32) -> i32 {
        value@
    }
}

impl From<bool32> for bool {
    /// Normalizes to a native boolean: `true` unless the stored integer is `0`.
    fn from(value: bool32) -> (r: bool)
        ensures
            r == value.truthy(),
            r == (value@ != 0),
    {
        value.0 != 0
    }
}

impl FromSpecImpl<bool32> for bool {
    open spec fn obeys_from_spec() -> bool {
        true
    }

    open spec fn from_spec(value: bool32) -> bool {
        value.truthy()
    }
}

impl<'a> From<&'a bool32> for &'a i32 {
    /// Views a `bool32` in place as its storage integer.
    fn from(value: &'a bool32) -> (r: &'a i32)
        ensures
            *r == value@,
    {
        &value.0
    }
}

impl<'a> FromSpecImpl<&'a bool32> for &'a i32 {
    open spec fn obeys_from_spec() -> bool {
        true
    }

    open spec fn from_spec(value: &'a bool32) -> &'a i32 {
        &value.0
    }
}

impl Deref for bool32 {
    type Target = i32;

    /// Read access to the stored integer.
    fn deref(&self) -> (r: &i32)
        ensures
            *r == self@,
    {
        &self.0
    }
}

impl DerefMut for bool32 {
    /// Write access to the stored integer. Whatever the caller leaves there is the new
    /// value: no bit pattern is turned away.
    fn deref_mut(&mut self) -> (r: &mut i32)
        ensures
            *r == old(self)@,
            final(self)@ == *final(r),
    {
        &mut self.0
    }
}

impl Default for bool32 {
    /// The falsy value, stored as `0`.
    fn default() -> (r: bool32)
        ensures
            r@ == 0,
            !r.truthy(),
    {
        bool32(0)
    }
}

impl Not for bool32 {
    type Output = bool;

    /// Logical negation, as a native boolean: `true` exactly when the stored integer is `0`.
    fn not(self) -> (r: bool)
        ensures
            r == !self.truthy(),
            r == (self@ == 0),
    {
        self.0 == 0
    }
}

impl NotSpecImpl for bool32 {
    open spec fn obeys_not_spec() -> bool {
        true
    }

    open spec fn not_req(self) -> bool {
        true
    }

    open spec fn not_spec(self) -> bool {
        !self.truthy()
    }
}

impl AsRef<bool> for bool32 {
    /// A reference to the native boolean that this value normalizes to.
    fn as_ref(&self) -> (r: &bool)
        ensures
            *r == self.truthy(),
    {
        if bool::from(*self) {
            &true
        } else {
            &false
        }
    }
}

impl Borrow<bool> for bool32 {
    /// Borrows the value as the native boolean that it normalizes to, so that it can
    /// be looked up where the key is a `bool`.
    fn borrow(&self) -> &bool
        returns
            &self.truthy(),
    {
        if bool::from(*self) {
            &true
        } else {
            &false
        }
    }
}

} // verus!
