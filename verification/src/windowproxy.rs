//! The window proxy value: the view handle UI events carry.

use vstd::prelude::*;
use crate::cache::WrapperCache;

verus! {

/// A proxy for a window; it carries nothing but its wrapper cache.
pub struct WindowProxy {
    pub wrapper: WrapperCache,
}

impl WindowProxy {
    /// A fresh, unwrapped proxy.
    pub fn new() -> (r: WindowProxy)
        ensures
            r.wrapper.wrapper is None,
    {
        WindowProxy { wrapper: WrapperCache::new() }
    }
}

} // verus!
