//! The UI event value: an event with a view (a window proxy wrapper) and
//! a detail count.

use vstd::prelude::*;
use crate::event::{ErrorResult, Event_, EventBase, EventInit};

verus! {

/// The UI event constructor dictionary.
pub struct UIEventInit {
    pub parent: EventInit,
    pub view: Option<usize>,
    pub detail: i32,
}

/// A UI event, composing the event base by value.
pub struct UIEvent {
    pub parent: Event_,
    pub can_bubble: bool,
    pub cancelable: bool,
    pub view: Option<usize>,
    pub detail: i32,
}

impl UIEvent {
    /// A fresh UI event over a fresh event base of the given type.
    pub fn new(type_: String, can_bubble: bool, cancelable: bool, view: Option<usize>, detail: i32)
        -> (r: UIEvent)
        ensures
            r.parent.wrapper.wrapper is None,
            r.parent.type_ == type_,
            !r.parent.default_prevented && r.parent.cancelable && r.parent.bubbles
                && !r.parent.trusted,
            r.can_bubble == can_bubble && r.cancelable == cancelable,
            r.view == view && r.detail == detail,
    {
        UIEvent { parent: Event_::new(type_), can_bubble, cancelable, view, detail }
    }

    /// The scripted constructor.
    pub fn Constructor(_owner: usize, type_: String, init: &UIEventInit, rv: &mut ErrorResult) -> (r:
        UIEvent)
        ensures
            r.parent.type_ == type_,
            r.can_bubble == init.parent.bubbles && r.cancelable == init.parent.cancelable,
            r.view == init.view && r.detail == init.detail,
            r.parent.wrapper.wrapper is None,
            *final(rv) == *old(rv),
    {
        UIEvent::new(type_, init.parent.bubbles, init.parent.cancelable, init.view, init.detail)
    }

    pub fn GetView(&self) -> (r: Option<usize>)
        ensures
            r == self.view,
    {
        self.view
    }

    pub fn Detail(&self) -> (r: i32)
        ensures
            r == self.detail,
    {
        self.detail
    }

    /// Re-initializes the event base and the UI fields.
    pub fn InitUIEvent(
        &mut self,
        type_: String,
        can_bubble: bool,
        cancelable: bool,
        view: Option<usize>,
        detail: i32,
    )
        ensures
            final(self).parent == (Event_ {
                type_,
                bubbles: can_bubble,
                cancelable,
                ..old(self).parent
            }),
            final(self).can_bubble == can_bubble && final(self).cancelable == cancelable,
            final(self).view == view && final(self).detail == detail,
    {
        let mut rv: ErrorResult = Ok(());
        self.parent.InitEvent(type_, can_bubble, cancelable, &mut rv);
        self.can_bubble = can_bubble;
        self.cancelable = cancelable;
        self.view = view;
        self.detail = detail;
    }

    pub fn LayerX(&self) -> (r: i32)
        ensures
            r == 0,
    {
        0
    }

    pub fn LayerY(&self) -> (r: i32)
        ensures
            r == 0,
    {
        0
    }

    pub fn PageX(&self) -> (r: i32)
        ensures
            r == 0,
    {
        0
    }

    pub fn PageY(&self) -> (r: i32)
        ensures
            r == 0,
    {
        0
    }

    pub fn Which(&self) -> (r: u32)
        ensures
            r == 0,
    {
        0
    }

    pub fn GetRangeParent(&self) -> (r: Option<usize>)
        ensures
            r is None,
    {
        None
    }

    pub fn RangeOffset(&self) -> (r: i32)
        ensures
            r == 0,
    {
        0
    }

    pub fn CancelBubble(&self) -> (r: bool)
        ensures
            r == false,
    {
        false
    }

    /// Cancel-bubble is not modelled: a no-op.
    pub fn SetCancelBubble(&mut self, _val: bool)
        ensures
            *final(self) == *old(self),
    {
    }

    pub fn IsChar(&self) -> (r: bool)
        ensures
            r == false,
    {
        false
    }
}

impl EventBase for UIEvent {
    open spec fn event_data(&self) -> Event_ {
        self.parent
    }

    open spec fn with_event(self, e: Event_) -> UIEvent {
        UIEvent { parent: e, ..self }
    }

    fn event_base(&self) -> (r: &Event_) {
        &self.parent
    }

    fn event_base_mut(&mut self) -> (r: &mut Event_) {
        &mut self.parent
    }
}

} // verus!
