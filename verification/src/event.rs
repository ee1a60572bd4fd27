//! The scripted event value, the input-event data the embedder delivers,
//! and generic access to the event base fields.
//!
//! Types that compose the event base by value implement [`EventBase`]
//! once; the base accessors and mutators are then written a single time,
//! generically, instead of once per concrete event type.

use vstd::prelude::*;
use crate::cache::WrapperCache;
use crate::values::CallFault;

verus! {

/// The outcome an operation reports to its caller.
pub type ErrorResult = Result<(), CallFault>;

/// An input event as the embedder delivers it.
#[derive(Clone, Copy, Debug, PartialEq, Eq, Structural)]
pub struct Point2D {
    pub x: i32,
    pub y: i32,
}

/// The events the embedder hands to a page.
pub enum Event {
    ResizeEvent(usize, usize),
    ReflowEvent,
    ClickEvent(usize, Point2D),
    MouseDownEvent(usize, Point2D),
    MouseUpEvent(usize, Point2D),
}

/// Fields shared by every scripted event constructor dictionary.
pub struct EventInit {
    pub bubbles: bool,
    pub cancelable: bool,
}

/// The scripted event value.
pub struct Event_ {
    pub wrapper: WrapperCache,
    pub type_: String,
    pub default_prevented: bool,
    pub cancelable: bool,
    pub bubbles: bool,
    pub trusted: bool,
}

impl Event_ {
    /// A fresh event of the given type: bubbling, cancelable, untrusted,
    /// default not prevented.
    pub fn new(type_: String) -> (r: Event_)
        ensures
            r.wrapper.wrapper is None,
            r.type_ == type_,
            !r.default_prevented && r.cancelable && r.bubbles && !r.trusted,
    {
        Event_ {
            wrapper: WrapperCache::new(),
            type_,
            default_prevented: false,
            cancelable: true,
            bubbles: true,
            trusted: false,
        }
    }

    pub fn EventPhase(&self) -> (r: u16)
        ensures
            r == 0,
    {
        0
    }

    pub fn Type(&self) -> (r: String)
        ensures
            r@ == self.type_@,
    {
        self.type_.clone()
    }

    /// No target tracking: always absent.
    pub fn GetTarget(&self) -> (r: Option<usize>)
        ensures
            r is None,
    {
        None
    }

    /// No target tracking: always absent.
    pub fn GetCurrentTarget(&self) -> (r: Option<usize>)
        ensures
            r is None,
    {
        None
    }

    pub fn DefaultPrevented(&self) -> (r: bool)
        ensures
            r == self.default_prevented,
    {
        self.default_prevented
    }

    pub fn PreventDefault(&mut self)
        ensures
            *final(self) == (Event_ { default_prevented: true, ..*old(self) }),
    {
        self.default_prevented = true;
    }

    /// Propagation is not modelled: a no-op.
    pub fn StopPropagation(&mut self)
        ensures
            *final(self) == *old(self),
    {
    }

    /// Propagation is not modelled: a no-op.
    pub fn StopImmediatePropagation(&mut self)
        ensures
            *final(self) == *old(self),
    {
    }

    pub fn Bubbles(&self) -> (r: bool)
        ensures
            r == self.bubbles,
    {
        self.bubbles
    }

    pub fn Cancelable(&self) -> (r: bool)
        ensures
            r == self.cancelable,
    {
        self.cancelable
    }

    pub fn TimeStamp(&self) -> (r: u64)
        ensures
            r == 0,
    {
        0
    }

    /// Re-initializes the event's type and flags; the outcome slot is
    /// left as the caller set it.
    pub fn InitEvent(&mut self, type_: String, bubbles: bool, cancelable: bool, rv: &mut ErrorResult)
        ensures
            *final(self) == (Event_ { type_, bubbles, cancelable, ..*old(self) }),
            *final(rv) == *old(rv),
    {
        self.type_ = type_;
        self.cancelable = cancelable;
        self.bubbles = bubbles;
    }

    pub fn IsTrusted(&self) -> (r: bool)
        ensures
            r == self.trusted,
    {
        self.trusted
    }

    /// The scripted constructor: builds a fresh event of the given type
    /// under the given global.
    pub fn Constructor(_global: usize, type_: String, _init: &EventInit, rv: &mut ErrorResult) -> (r:
        Event_)
        ensures
            r.wrapper.wrapper is None,
            r.type_ == type_,
            !r.default_prevented && r.cancelable && r.bubbles && !r.trusted,
            *final(rv) == *old(rv),
    {
        Event_::new(type_)
    }
}

/// Access to the event base fields for any type that composes them by
/// value, written once instead of per concrete event type.
pub trait EventBase: Sized {
    /// The embedded event base.
    spec fn event_data(&self) -> Event_;

    /// The same value with the event base replaced.
    spec fn with_event(self, e: Event_) -> Self;

    /// Borrows the event base.
    fn event_base(&self) -> (r: &Event_)
        ensures
            *r == self.event_data(),
    ;

    /// Mutably borrows the event base; everything else is untouched.
    fn event_base_mut(&mut self) -> (r: &mut Event_)
        ensures
            *r == old(self).event_data(),
            *final(self) == old(self).with_event(*final(r)),
    ;
}

impl EventBase for Event_ {
    open spec fn event_data(&self) -> Event_ {
        *self
    }

    open spec fn with_event(self, e: Event_) -> Event_ {
        e
    }

    fn event_base(&self) -> (r: &Event_) {
        self
    }

    fn event_base_mut(&mut self) -> (r: &mut Event_) {
        self
    }
}

/// The type of any event value, read through its base.
pub fn event_type<T: EventBase>(x: &T) -> (r: String)
    ensures
        r@ == x.event_data().type_@,
{
    x.event_base().Type()
}

/// Marks any event value's default as prevented, through its base.
pub fn event_prevent_default<T: EventBase>(x: &mut T)
    ensures
        *final(x) == old(x).with_event(
            (Event_ { default_prevented: true, ..old(x).event_data() }),
        ),
{
    x.event_base_mut().PreventDefault();
}

} // verus!
