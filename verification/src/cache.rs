//! The per-value wrapper cache: the slot recording whether, and which,
//! foreign wrapper object exposes a native value.

use vstd::prelude::*;

verus! {

/// An unrecoverable configuration fault: a violated registration or
/// wrapping contract.  These indicate a binding defect, not a runtime
/// condition a script can trigger.
#[derive(Clone, Copy, Debug, PartialEq, Eq, Structural)]
pub enum BindingFault {
    /// A class was registered twice under one name.
    DuplicateClass,
    /// A prototype was defined twice under one name.
    DuplicateProto,
    /// A class was registered with inline storage smaller than its native
    /// type.
    StorageTooSmall,
    /// A class name that was never registered.
    UnknownClass,
    /// A prototype name that was never defined.
    UnknownProto,
    /// A wrapper was set on a cache that already holds one.
    WrapperAlreadySet,
    /// No wrapper has been set yet.
    WrapperNotSet,
    /// A value of one native type was handed to a class registered for
    /// another.
    KindMismatch,
    /// An object handle outside the heap.
    InvalidHandle,
    /// The object's inline storage holds no value (already finalized, or a
    /// plain interface object).
    NotWrapped,
    /// The object's inline storage was already emptied by `finalize`.
    AlreadyFinalized,
    /// An unpin without a matching pin, or a pin count at its limit.
    UnbalancedPin,
    /// No active global scope to own a lazily created wrapper.
    MissingScope,
}

/// One per wrappable native value; holds an optional handle to the
/// value's foreign wrapper.  `None` until the value is embedded in a
/// foreign object, and set at most once after that.
#[derive(Clone, Copy, Debug, PartialEq, Eq, Structural)]
pub struct WrapperCache {
    pub wrapper: Option<usize>,
}

/// Whether a wrapper may still be recorded: only while none is set.
pub open spec fn set_wrapper_ok(c: WrapperCache) -> bool {
    c.wrapper is None
}

/// The cache after a wrapper handle is recorded.
pub open spec fn cache_with_wrapper(h: usize) -> WrapperCache {
    WrapperCache { wrapper: Some(h) }
}

impl WrapperCache {
    /// An empty cache: no foreign identity yet.
    pub fn new() -> (r: WrapperCache)
        ensures
            r.wrapper is None,
    {
        WrapperCache { wrapper: None }
    }

    /// Records the wrapper handle.  Fails if one is already set: a double
    /// wrap is a contract violation, and the cache keeps its first handle.
    pub fn set_wrapper(&mut self, h: usize) -> (r: Result<(), BindingFault>)
        ensures
            match r {
                Ok(()) => set_wrapper_ok(*old(self)) && *final(self) == cache_with_wrapper(h),
                Err(e) => {
                    &&& e == BindingFault::WrapperAlreadySet
                    &&& !set_wrapper_ok(*old(self))
                    &&& *final(self) == *old(self)
                },
            },
    {
        match self.wrapper {
            Option::None => {
                self.wrapper = Some(h);
                Ok(())
            },
            Option::Some(_) => Err(BindingFault::WrapperAlreadySet),
        }
    }

    /// The current wrapper handle, or `None` while the value is unwrapped.
    pub fn get_wrapper(&self) -> (r: Option<usize>)
        ensures
            r == self.wrapper,
    {
        self.wrapper
    }

    /// The handle under which external code may pin the wrapper against
    /// collection, independent of normal reachability.  Fails while no
    /// wrapper is set.
    pub fn get_rootable(&self) -> (r: Result<usize, BindingFault>)
        ensures
            match r {
                Ok(h) => self.wrapper == Some(h),
                Err(e) => e == BindingFault::WrapperNotSet && self.wrapper is None,
            },
    {
        match self.wrapper {
            Option::Some(h) => Ok(h),
            Option::None => Err(BindingFault::WrapperNotSet),
        }
    }
}

/// Setting a wrapper on a fresh cache always succeeds and the recorded
/// identity is stable: after the first set, any further set is refused and
/// the cache still answers with the first handle.
pub proof fn lemma_set_wrapper_once(c0: WrapperCache, h1: usize)
    requires
        c0.wrapper is None,
    ensures
        set_wrapper_ok(c0),
        !set_wrapper_ok(cache_with_wrapper(h1)),
        cache_with_wrapper(h1).wrapper == Some(h1),
{
}

} // verus!
