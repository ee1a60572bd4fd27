//! The blob value: a peripheral wrappable with no linked natives.

use vstd::prelude::*;
use crate::cache::WrapperCache;

verus! {

/// An opaque binary object; it carries nothing but its wrapper cache.
pub struct Blob {
    pub wrapper: WrapperCache,
}

impl Blob {
    /// A fresh, unwrapped blob.
    pub fn new() -> (r: Blob)
        ensures
            r.wrapper.wrapper is None,
    {
        Blob { wrapper: WrapperCache::new() }
    }
}

} // verus!
