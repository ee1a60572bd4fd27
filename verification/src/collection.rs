//! The element collection a tag-name query yields.

use vstd::prelude::*;
use crate::cache::WrapperCache;
use crate::event::ErrorResult;

verus! {

/// An ordered collection of element wrapper handles.
pub struct HTMLCollection {
    pub wrapper: WrapperCache,
    pub elements: Vec<usize>,
}

impl HTMLCollection {
    /// A fresh, unwrapped collection over the given element wrappers.
    pub fn new(elements: Vec<usize>) -> (r: HTMLCollection)
        ensures
            r.wrapper.wrapper is None,
            r.elements == elements,
    {
        HTMLCollection { wrapper: WrapperCache::new(), elements }
    }

    pub fn Length(&self) -> (r: u32)
        requires
            self.elements@.len() <= u32::MAX,
        ensures
            r as int == self.elements@.len(),
    {
        self.elements.len() as u32
    }

    /// The element at `index`, or `None` past the end.
    pub fn Item(&self, index: u32) -> (r: Option<usize>)
        ensures
            match r {
                Some(h) => index < self.elements@.len() && h == self.elements@[index as int],
                None => index >= self.elements@.len(),
            },
    {
        if (index as usize) < self.elements.len() {
            Some(self.elements[index as usize])
        } else {
            None
        }
    }

    /// Named lookup is not offered: always absent, and the call reports
    /// success.
    pub fn NamedItem(&self, _name: String, rv: &mut ErrorResult) -> (r: Option<usize>)
        ensures
            r is None,
            *final(rv) == Ok::<(), crate::values::CallFault>(()),
    {
        *rv = Ok(());
        None
    }

    /// The indexed getter always reports the index as found, and yields
    /// the same answer as `Item`.
    pub fn IndexedGetter(&self, index: u32, found: &mut bool) -> (r: Option<usize>)
        ensures
            *final(found) == true,
            match r {
                Some(h) => index < self.elements@.len() && h == self.elements@[index as int],
                None => index >= self.elements@.len(),
            },
    {
        *found = true;
        self.Item(index)
    }
}

} // verus!
