//! Display rendering.
//!
//! A [`bool8`] or [`bool32`] prints as the native boolean that it normalizes to:
//! `true` or `false`, never the stored number.
//!
//! The text depends on the width and fill that the formatter was asked for, and the
//! outcome on what it writes to, so the contract of `fmt` does not spell them out. It
//! says that the step the formatter took and the outcome are those of rendering the
//! normalized boolean.

use vstd::prelude::*;
use core::fmt::Display;
use core::fmt::Formatter;
use crate::narrow::bool8;
use crate::std_specs::display_bool;
use crate::wide::bool32;

verus! {

impl Display for bool8 {
    /// Renders the normalized boolean: the text written to `f` and the outcome are
    /// those of rendering that boolean with a formatter in the same state.
    fn fmt(&self, f: &mut Formatter<'_>) -> (r: core::fmt::Result)
        ensures
            exists|sink: &mut Formatter<'_>|
                *sink == *old(f) && *final(sink) == *final(f)
                && call_ensures(display_bool, (self.truthy(), sink), r),
    {
        display_bool(bool::from(*self), f)
    }
}

impl Display for bool32 {
    /// Renders the normalized boolean: the text written to `f` and the outcome are
    /// those of rendering that boolean with a formatter in the same state.
    fn fmt(&self, f: &mut Formatter<'_>) -> (r: core::fmt::Result)
        ensures
            exists|sink: &mut Formatter<'_>|
                *sink == *old(f) && *final(sink) == *final(f)
                && call_ensures(display_bool, (self.truthy(), sink), r),
    {
        display_bool(bool::from(*self), f)
    }
}

} // verus!
