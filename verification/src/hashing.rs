//! Hashing by truth value.
//!
//! A [`bool8`] or [`bool32`] is hashed as the native boolean that it normalizes to:
//! its hash key. Values that compare equal have the same key, so a hasher is fed the
//! same input for them, whatever their width or bit pattern.
//!
//! What a hasher makes of a boolean is its own business, so the contract of `hash`
//! does not say what the hasher holds afterwards. It says that the step the hasher
//! took, from the state it came in to the state it is left in, is one that feeding it
//! the hash key takes.

use vstd::prelude::*;
use core::hash::Hash;
use core::hash::Hasher;
use crate::narrow::bool8;
use crate::std_specs::feed_bool;
use crate::wide::bool32;

verus! {

impl bool8 {
    /// The native boolean that `hash` hands to the hasher in place of this value.
    pub open spec fn hash_key(self) -> bool {
        self.truthy()
    }
}

impl bool32 {
    /// The native boolean that `hash` hands to the hasher in place of this value.
    pub open spec fn hash_key(self) -> bool {
        self.truthy()
    }
}

impl Hash for bool8 {
    /// Feeds the hash key, never the stored byte, to the hasher: what happens to
    /// `state` is what feeding the key to a hasher in that state does.
    fn hash<H: Hasher>(&self, state: &mut H)
        ensures
            exists|sink: &mut H|
                *sink == *old(state) && *final(sink) == *final(state)
                && call_ensures(feed_bool::<H>, (self.hash_key(), sink), ()),
    {
        feed_bool(bool::from(*self), state)
    }
}

impl Hash for bool32 {
    /// Feeds the hash key, never the stored integer, to the hasher: what happens to
    /// `state` is what feeding the key to a hasher in that state does.
    fn hash<H: Hasher>(&self, state: &mut H)
        ensures
            exists|sink: &mut H|
                *sink == *old(state) && *final(sink) == *final(state)
                && call_ensures(feed_bool::<H>, (self.hash_key(), sink), ()),
    {
        feed_bool(bool::from(*self), state)
    }
}

} // verus!
