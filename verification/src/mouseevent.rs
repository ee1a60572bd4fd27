//! The mouse event value: a UI event with pointer coordinates, modifier
//! keys and a button.

use vstd::prelude::*;
use crate::event::{ErrorResult, Event_, EventBase};
use crate::uievent::{UIEvent, UIEventInit};

verus! {

/// The mouse event constructor dictionary.
pub struct MouseEventInit {
    pub parent: UIEventInit,
    pub screenX: i32,
    pub screenY: i32,
    pub clientX: i32,
    pub clientY: i32,
    pub ctrlKey: bool,
    pub shiftKey: bool,
    pub altKey: bool,
    pub metaKey: bool,
    pub button: u16,
    pub buttons: u16,
    pub relatedTarget: Option<usize>,
}

/// A mouse event, composing the UI event (and through it the event base)
/// by value.
pub struct MouseEvent {
    pub parent: UIEvent,
    pub screen_x: i32,
    pub screen_y: i32,
    pub client_x: i32,
    pub client_y: i32,
    pub ctrl_key: bool,
    pub shift_key: bool,
    pub alt_key: bool,
    pub meta_key: bool,
    pub button: u16,
    pub related_target: Option<usize>,
}

impl MouseEvent {
    /// A fresh mouse event; the buttons mask is not stored.
    pub fn new(
        type_: String,
        can_bubble: bool,
        cancelable: bool,
        view: Option<usize>,
        detail: i32,
        screen_x: i32,
        screen_y: i32,
        client_x: i32,
        client_y: i32,
        ctrl_key: bool,
        shift_key: bool,
        alt_key: bool,
        meta_key: bool,
        button: u16,
        _buttons: u16,
        related_target: Option<usize>,
    ) -> (r: MouseEvent)
        ensures
            r.parent.parent.type_ == type_,
            r.parent.parent.wrapper.wrapper is None,
            !r.parent.parent.default_prevented && r.parent.parent.cancelable
                && r.parent.parent.bubbles && !r.parent.parent.trusted,
            r.parent.can_bubble == can_bubble && r.parent.cancelable == cancelable,
            r.parent.view == view && r.parent.detail == detail,
            r.screen_x == screen_x && r.screen_y == screen_y,
            r.client_x == client_x && r.client_y == client_y,
            r.ctrl_key == ctrl_key && r.shift_key == shift_key,
            r.alt_key == alt_key && r.meta_key == meta_key,
            r.button == button && r.related_target == related_target,
    {
        MouseEvent {
            parent: UIEvent::new(type_, can_bubble, cancelable, view, detail),
            screen_x,
            screen_y,
            client_x,
            client_y,
            ctrl_key,
            shift_key,
            alt_key,
            meta_key,
            button,
            related_target,
        }
    }

    /// The scripted constructor.
    pub fn Constructor(_owner: usize, type_: String, init: &MouseEventInit, rv: &mut ErrorResult)
        -> (r: MouseEvent)
        ensures
            r.parent.parent.type_ == type_,
            r.parent.parent.wrapper.wrapper is None,
            r.parent.can_bubble == init.parent.parent.bubbles,
            r.parent.cancelable == init.parent.parent.cancelable,
            r.parent.view == init.parent.view && r.parent.detail == init.parent.detail,
            r.screen_x == init.screenX && r.screen_y == init.screenY,
            r.client_x == init.clientX && r.client_y == init.clientY,
            r.ctrl_key == init.ctrlKey && r.shift_key == init.shiftKey,
            r.alt_key == init.altKey && r.meta_key == init.metaKey,
            r.button == init.button && r.related_target == init.relatedTarget,
            *final(rv) == *old(rv),
    {
        MouseEvent::new(
            type_,
            init.parent.parent.bubbles,
            init.parent.parent.cancelable,
            init.parent.view,
            init.parent.detail,
            init.screenX,
            init.screenY,
            init.clientX,
            init.clientY,
            init.ctrlKey,
            init.shiftKey,
            init.altKey,
            init.metaKey,
            init.button,
            init.buttons,
            init.relatedTarget,
        )
    }

    pub fn ScreenX(&self) -> (r: i32)
        ensures
            r == self.screen_x,
    {
        self.screen_x
    }

    pub fn ScreenY(&self) -> (r: i32)
        ensures
            r == self.screen_y,
    {
        self.screen_y
    }

    pub fn ClientX(&self) -> (r: i32)
        ensures
            r == self.client_x,
    {
        self.client_x
    }

    pub fn ClientY(&self) -> (r: i32)
        ensures
            r == self.client_y,
    {
        self.client_y
    }

    pub fn CtrlKey(&self) -> (r: bool)
        ensures
            r == self.ctrl_key,
    {
        self.ctrl_key
    }

    pub fn ShiftKey(&self) -> (r: bool)
        ensures
            r == self.shift_key,
    {
        self.shift_key
    }

    pub fn AltKey(&self) -> (r: bool)
        ensures
            r == self.alt_key,
    {
        self.alt_key
    }

    pub fn MetaKey(&self) -> (r: bool)
        ensures
            r == self.meta_key,
    {
        self.meta_key
    }

    pub fn Button(&self) -> (r: u16)
        ensures
            r == self.button,
    {
        self.button
    }

    /// The buttons mask is not stored.
    pub fn Buttons(&self) -> (r: u16)
        ensures
            r == 0,
    {
        0
    }

    pub fn GetRelatedTarget(&self) -> (r: Option<usize>)
        ensures
            r == self.related_target,
    {
        self.related_target
    }

    /// Modifier-state queries beyond the stored keys are not modelled.
    pub fn GetModifierState(&self, _keyArg: String) -> (r: bool)
        ensures
            r == false,
    {
        false
    }

    /// Re-initializes the UI event base and every mouse field.
    pub fn InitMouseEvent(
        &mut self,
        typeArg: String,
        canBubbleArg: bool,
        cancelableArg: bool,
        viewArg: Option<usize>,
        detailArg: i32,
        screenXArg: i32,
        screenYArg: i32,
        clientXArg: i32,
        clientYArg: i32,
        ctrlKeyArg: bool,
        altKeyArg: bool,
        shiftKeyArg: bool,
        metaKeyArg: bool,
        buttonArg: u16,
        relatedTargetArg: Option<usize>,
        rv: &mut ErrorResult,
    )
        ensures
            final(self).parent.parent == (Event_ {
                type_: typeArg,
                bubbles: canBubbleArg,
                cancelable: cancelableArg,
                ..old(self).parent.parent
            }),
            final(self).parent.can_bubble == canBubbleArg,
            final(self).parent.cancelable == cancelableArg,
            final(self).parent.view == viewArg && final(self).parent.detail == detailArg,
            final(self).screen_x == screenXArg && final(self).screen_y == screenYArg,
            final(self).client_x == clientXArg && final(self).client_y == clientYArg,
            final(self).ctrl_key == ctrlKeyArg && final(self).alt_key == altKeyArg,
            final(self).shift_key == shiftKeyArg && final(self).meta_key == metaKeyArg,
            final(self).button == buttonArg && final(self).related_target == relatedTargetArg,
            *final(rv) == *old(rv),
    {
        self.parent.InitUIEvent(typeArg, canBubbleArg, cancelableArg, viewArg, detailArg);
        self.screen_x = screenXArg;
        self.screen_y = screenYArg;
        self.client_x = clientXArg;
        self.client_y = clientYArg;
        self.ctrl_key = ctrlKeyArg;
        self.alt_key = altKeyArg;
        self.shift_key = shiftKeyArg;
        self.meta_key = metaKeyArg;
        self.button = buttonArg;
        self.related_target = relatedTargetArg;
    }
}

impl EventBase for MouseEvent {
    open spec fn event_data(&self) -> Event_ {
        self.parent.parent
    }

    open spec fn with_event(self, e: Event_) -> MouseEvent {
        MouseEvent { parent: (UIEvent { parent: e, ..self.parent }), ..self }
    }

    fn event_base(&self) -> (r: &Event_) {
        &self.parent.parent
    }

    fn event_base_mut(&mut self) -> (r: &mut Event_) {
        &mut self.parent.parent
    }
}

} // verus!
