//! The 8-bit boolean: one unsigned byte of storage in which every bit pattern is a
//! legal value.

use vstd::prelude::*;
use vstd::std_specs::convert::FromSpecImpl;
use vstd::std_specs::convert::IntoSpec;
use vstd::std_specs::ops::NotSpecImpl;
use core::borrow::Borrow;
use core::ops::Deref;
use core::ops::DerefMut;
use core::ops::Not;

verus! {

/// 8-bit boolean that keeps whatever byte it was given.
///
/// `0` is falsy, every other bit pattern is truthy. Comparison, ordering and hashing
/// go by that truth value and never by the stored bits, so `bool8(1)` and `bool8(2)`
/// are equal to each other and to `true`.
#[allow(non_camel_case_types)]
#[derive(Clone, Copy)]
pub struct bool8(pub u8);

/// The bit pattern that a native boolean is stored as: `0` for `false`, `1` for `true`.
pub open spec fn canonical8(value: bool) -> u8 {
    if value {
        1
    } else {
        0
    }
}

impl View for bool8 {
    type V = u8;

    /// The stored bit pattern, exactly as it was written.
    open spec fn view(&self) -> u8 {
        self.0
    }
}

impl bool8 {
    /// The native boolean that the stored bits stand for.
    pub open spec fn truthy(self) -> bool {
        self@ != 0
    }

    /// The falsy value, stored as `0`.
    ///
    /// A function rather than an associated constant, so that it carries a contract.
    #[allow(non_snake_case)]
    pub fn FALSE() -> (r: bool8)
        ensures
            r@ == 0,
            !r.truthy(),
    {
        bool8(0)
    }

    /// The canonical truthy value, stored as `1`.
    ///
    /// A function rather than an associated constant, so that it carries a contract.
    #[allow(non_snake_case)]
    pub fn TRUE() -> (r: bool8)
        ensures
            r@ == 1,
            r.truthy(),
    {
        bool8(1)
    }

    /// Builds a `bool8` from anything that converts into one: a native boolean
    /// (stored canonically) or a raw byte (stored verbatim).
    pub fn from<T: Into<bool8>>(value: T) -> (r: bool8)
        ensures
            T::obeys_into_spec() ==> r == value.into_spec(),
            call_ensures(T::into, (value,), r),
    {
        value.into()
    }
}

impl From<bool> for bool8 {
    /// Stores a native boolean in its canonical bit pattern.
    fn from(value: bool) -> (r: bool8)
        ensures
            r@ == canonical8(value),
            r.truthy() == value,
    {
        if value {
            bool8(1)
        } else {
            bool8(0)
        }
    }
}

impl FromSpecImpl<bool> for bool8 {
    open spec fn obeys_from_spec() -> bool {
        true
    }

    open spec fn from_spec(value: bool) -> bool8 {
        bool8(canonical8(value))
    }
}

impl From<u8> for bool8 {
    /// Wraps a raw byte without looking at it.
    fn from(value: u8) -> (r: bool8)
        ensures
            r@ == value,
    {
        bool8(value)
    }
}

impl FromSpecImpl<u8> for bool8 {
    open spec fn obeys_from_spec() -> bool {
        true
    }

    open spec fn from_spec(value: u8) -> bool8 {
        bool8(value)
    }
}

impl From<bool8> for u8 {
    /// Hands the stored byte back, not normalized.
    fn from(value: bool8) -> (r: u8)
        ensures
            r == value@,
    {
        value.0
    }
}

impl FromSpecImpl<bool8> for u8 {
    open spec fn obeys_from_spec() -> bool {
        true
    }

    open spec fn from_spec(value: bool8) -> u8 {
        value@
    }
}

impl From<bool8> for bool {
    /// Normalizes to a native boolean: `true` unless the stored byte is `0`.
    fn from(value: bool8) -> (r: bool)
        ensures
            r == value.truthy(),
            r == (value@ != 0),
    {
        value.0 != 0
    }
}

impl FromSpecImpl<bool8> for bool {
    open spec fn obeys_from_spec() -> bool {
        true
    }

    open spec fn from_spec(value: bool8) -> bool {
        value.truthy()
    }
}

impl<'a> From<&'a bool8> for &'a u8 {
    /// Views a `bool8` in place as its storage byte.
    fn from(value: &'a bool8) -> (r: &'a u8)
        ensures
            *r == value@,
    {
        &value.0
    }
}

impl<'a> FromSpecImpl<&'a bool8> for &'a u8 {
    open spec fn obeys_from_spec() -> bool {
        true
    }

    open spec fn from_spec(value: &'a bool8) -> &'a u8 {
        &value.0
    }
}

impl Deref for bool8 {
    type Target = u8;

    /// Read access to the stored byte.
    fn deref(&self) -> (r: &u8)
        ensures
            *r == self@,
    {
        &self.0
    }
}

impl DerefMut for bool8 {
    /// Write access to the stored byte. Whatever the caller leaves there is the new
    /// value: no bit pattern is turned away.
    fn deref_mut(&mut self) -> (r: &mut u8)
        ensures
            *r == old(self)@,
            final(self)@ == *final(r),
    {
        &mut self.0
    }
}

impl Default for bool8 {
    /// The falsy value, stored as `0`.
    fn default() -> (r: bool8)
        ensures
            r@ == 0,
            !r.truthy(),
    {
        bool8(0)
    }
}

impl Not for bool8 {
    type Output = bool;

    /// Logical negation, as a native boolean: `true` exactly when the stored byte is `0`.
    fn not(self) -> (r: bool)
        ensures
            r == !self.truthy(),
            r == (self@ == 0),
    {
        self.0 == 0
    }
}

impl NotSpecImpl for bool8 {
    open spec fn obeys_not_spec() -> bool {
        true
    }

    open spec fn not_req(self) -> bool {
        true
    }

    open spec fn not_spec(self) -> bool {
        !self.truthy()
    }
}

impl AsRef<bool> for bool8 {
    /// A reference to the native boolean that this value normalizes to.
    fn as_ref(&self) -> (r: &bool)
        ensures
            *r == self.truthy(),
    {
        if bool::from(*self) {
            &true
        } else {
            &false
        }
    }
}

impl Borrow<bool> for bool8 {
    /// Borrows the value as the native boolean that it normalizes to, so that it can
    /// be looked up where the key is a `bool`.
    fn borrow(&self) -> &bool
        returns
            &self.truthy(),
    {
        if bool::from(*self) {
            &true
        } else {
            &false
        }
    }
}

} // verus!
