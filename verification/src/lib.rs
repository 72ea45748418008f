//! Booleans of fixed width for data shared with C: [`bool8`] over one unsigned byte
//! and [`bool32`] over a signed 32-bit integer.
//!
//! Foreign code may leave any bit pattern in such a cell, so every pattern is a legal
//! value and is kept as it is. What a value *means* is its truth: `0` is falsy, all
//! else is truthy. Equality, ordering, hashing and printing go by that truth alone,
//! among the two types and the native `bool`.

pub mod compare;
pub mod debug;
pub mod display;
pub mod hashing;
pub mod laws;
pub mod narrow;
mod std_specs;
pub mod wide;

pub use narrow::bool8;
pub use narrow::bool8 as b8;
pub use wide::bool32;
pub use wide::bool32 as b32;
