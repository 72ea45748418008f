//! What this library takes from the standard library on trust.
//!
//! Verus has no specification of its own for the items below, and none of them is
//! proved here. Each is declared with no more than its documentation says.
//!
//! The three functions are named in the contracts of `hash` and `fmt`, and Verus wants
//! what a public contract names to be `pub`. The module itself is private, so nothing
//! outside this crate can call them.

use vstd::prelude::*;
use core::fmt::Debug;
use core::fmt::Display;
use core::fmt::Formatter;
use core::hash::Hash;
use core::hash::Hasher;

verus! {

/// `core::fmt::Formatter`, the sink that formatting writes to. Opaque here.
#[verifier::external_type_specification]
#[verifier::external_body]
pub struct ExFormatter<'a>(Formatter<'a>);

/// `core::fmt::Error`, the error of a sink that could not be written to. Opaque here.
#[verifier::external_type_specification]
#[verifier::external_body]
pub struct ExFmtError(core::fmt::Error);

/// `<A as From<A>>::from`, the conversion of a value into its own type, which returns
/// its argument unchanged. It is what `bool8::from` and `bool32::from` come down to
/// when they are handed a value that already has their type.
pub assume_specification<A>[ <A as From<A>>::from ](value: A) -> (r: A)
    ensures
        r == value,
;

/// Calls `<bool as Hash>::hash`, which feeds a native boolean to a hasher. Nothing is
/// claimed of what the hasher holds afterwards: a hasher is opaque here, and each
/// implementation digests its input in its own way. A contract says "what `feed_bool`
/// does with this boolean" by `call_ensures`.
#[verifier::external_body]
pub fn feed_bool<H: Hasher>(value: bool, state: &mut H) {
    value.hash(state)
}

/// Calls `<bool as Debug>::fmt`. Nothing is claimed of the text written or of the
/// outcome: both depend on the sink behind the formatter and on the width and fill
/// it was asked for. A contract says "what `debug_bool` does with this boolean" by
/// `call_ensures`.
#[verifier::external_body]
pub fn debug_bool(value: bool, f: &mut Formatter<'_>) -> core::fmt::Result {
    Debug::fmt(&value, f)
}

/// Calls `<bool as Display>::fmt`. Nothing is claimed of the text written or of the
/// outcome: both depend on the sink behind the formatter and on the width and fill
/// it was asked for. A contract says "what `display_bool` does with this boolean" by
/// `call_ensures`.
#[verifier::external_body]
pub fn display_bool(value: bool, f: &mut Formatter<'_>) -> core::fmt::Result {
    Display::fmt(&value, f)
}

} // verus!
