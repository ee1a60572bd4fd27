//! Client rectangles as layout reports them, and lists of their wrappers.

use vstd::prelude::*;
use crate::cache::WrapperCache;

verus! {

/// A rectangle from a layout query, in integer device pixels.
pub struct ClientRect {
    pub wrapper: WrapperCache,
    pub top: i32,
    pub bottom: i32,
    pub left: i32,
    pub right: i32,
}

/// Absolute difference of two coordinates.
pub open spec fn spec_extent(a: int, b: int) -> int {
    if a >= b {
        a - b
    } else {
        b - a
    }
}

impl ClientRect {
    /// A fresh, unwrapped rectangle value.
    pub fn new(top: i32, bottom: i32, left: i32, right: i32) -> (r: ClientRect)
        ensures
            r.wrapper.wrapper is None,
            r.top == top && r.bottom == bottom && r.left == left && r.right == right,
    {
        ClientRect { wrapper: WrapperCache::new(), top, bottom, left, right }
    }

    pub fn Top(&self) -> (r: i32)
        ensures
            r == self.top,
    {
        self.top
    }

    pub fn Bottom(&self) -> (r: i32)
        ensures
            r == self.bottom,
    {
        self.bottom
    }

    pub fn Left(&self) -> (r: i32)
        ensures
            r == self.left,
    {
        self.left
    }

    pub fn Right(&self) -> (r: i32)
        ensures
            r == self.right,
    {
        self.right
    }

    /// The width: the absolute difference of the horizontal edges,
    /// whichever order they were given in.
    pub fn Width(&self) -> (r: u32)
        ensures
            r as int == spec_extent(self.right as int, self.left as int),
    {
        let d: i64 = self.right as i64 - self.left as i64;
        if d >= 0 {
            d as u32
        } else {
            (-d) as u32
        }
    }

    /// The height: the absolute difference of the vertical edges,
    /// whichever order they were given in.
    pub fn Height(&self) -> (r: u32)
        ensures
            r as int == spec_extent(self.bottom as int, self.top as int),
    {
        let d: i64 = self.bottom as i64 - self.top as i64;
        if d >= 0 {
            d as u32
        } else {
            (-d) as u32
        }
    }
}

/// A list of wrapped rectangles; the entries are the wrapper handles of
/// `ClientRect` values, and are what `trace` reports for the list.
pub struct ClientRectList {
    pub wrapper: WrapperCache,
    pub rects: Vec<usize>,
}

impl ClientRectList {
    /// A fresh, unwrapped list over the given rectangle wrappers.
    pub fn new(rects: Vec<usize>) -> (r: ClientRectList)
        ensures
            r.wrapper.wrapper is None,
            r.rects == rects,
    {
        ClientRectList { wrapper: WrapperCache::new(), rects }
    }

    pub fn Length(&self) -> (r: u32)
        requires
            self.rects@.len() <= u32::MAX,
        ensures
            r as int == self.rects@.len(),
    {
        self.rects.len() as u32
    }

    /// The rectangle at `index`, or `None` past the end.
    pub fn Item(&self, index: u32) -> (r: Option<usize>)
        ensures
            match r {
                Some(h) => index < self.rects@.len() && h == self.rects@[index as int],
                None => index >= self.rects@.len(),
            },
    {
        if (index as usize) < self.rects.len() {
            Some(self.rects[index as usize])
        } else {
            None
        }
    }

    /// The indexed getter: reports whether the index is in range, and
    /// yields the same answer as `Item`.
    pub fn IndexedGetter(&self, index: u32, found: &mut bool) -> (r: Option<usize>)
        ensures
            *final(found) == (index < self.rects@.len()),
            match r {
                Some(h) => index < self.rects@.len() && h == self.rects@[index as int],
                None => index >= self.rects@.len(),
            },
    {
        *found = (index as usize) < self.rects.len();
        self.Item(index)
    }
}

} // verus!
