//! A few items that differ in nothing but the attributes they carry.
//!
//! A listing shows an item whatever its attributes are. These items are
//! here to be described and listed, as a small surface to try a listing
//! on.

use vstd::prelude::*;

verus! {

/// A function that documentation may leave out.
pub fn doc_hidden() {
}

/// An enum that may get more variants.
#[non_exhaustive]
pub enum NonExhaustive {
    MoreToCome,
}

/// A function whose result is meant to be used. It returns zero.
#[must_use]
pub fn must_use() -> (r: usize)
    ensures
        r == 0,
{
    0
}

/// A struct with a single public field.
pub struct C {
    pub b: bool,
}

} // verus!
