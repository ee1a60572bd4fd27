//! The window value.  Its operations decide; the embedder performs.
//! Each scripted call appends the action it chose to the window's queue,
//! and the embedder drains the queue and carries the actions out.

use vstd::prelude::*;
use crate::cache::WrapperCache;
use crate::values::ScriptValue;

verus! {

/// An outward action a window operation has decided on.
pub enum WindowAction {
    /// Show the message to the user.
    Alert(String),
    /// Arm a one-shot timer for the given number of milliseconds; `args`
    /// is the call's argument list as the engine handed it over, whose
    /// first entry is the callback to run when the timer fires.
    SetTimeout { timeout: i64, args: Vec<ScriptValue> },
    /// Close the page.
    Close,
    /// The content changed: lay the page out again.
    Reflow,
}

/// The window value: the page's global, with its queue of decided
/// actions.
pub struct Window {
    pub wrapper: WrapperCache,
    pub pending: Vec<WindowAction>,
}

impl Window {
    /// A fresh, unwrapped window with nothing pending.
    pub fn new() -> (r: Window)
        ensures
            r.wrapper.wrapper is None,
            r.pending@ =~= Seq::<WindowAction>::empty(),
    {
        Window { wrapper: WrapperCache::new(), pending: Vec::new() }
    }

    /// Decides to show a message.
    pub fn alert(&mut self, msg: String)
        ensures
            final(self).pending@ == old(self).pending@.push(WindowAction::Alert(msg)),
            final(self).wrapper == old(self).wrapper,
    {
        self.pending.push(WindowAction::Alert(msg));
    }

    /// Decides to arm a one-shot timer, keeping the call's arguments for
    /// the embedder to run the callback with.
    pub fn setTimeout(&mut self, timeout: i64, args: Vec<ScriptValue>)
        ensures
            final(self).pending@ == old(self).pending@.push(
                (WindowAction::SetTimeout { timeout, args }),
            ),
            final(self).wrapper == old(self).wrapper,
    {
        self.pending.push(WindowAction::SetTimeout { timeout, args });
    }

    /// Decides to close the page.
    pub fn close(&mut self)
        ensures
            final(self).pending@ == old(self).pending@.push(WindowAction::Close),
            final(self).wrapper == old(self).wrapper,
    {
        self.pending.push(WindowAction::Close);
    }

    /// Decides that the content changed and a new layout is owed.
    pub fn content_changed(&mut self)
        ensures
            final(self).pending@ == old(self).pending@.push(WindowAction::Reflow),
            final(self).wrapper == old(self).wrapper,
    {
        self.pending.push(WindowAction::Reflow);
    }

    /// Hands the queued actions to the embedder, leaving the queue empty.
    pub fn take_pending(&mut self) -> (r: Vec<WindowAction>)
        ensures
            r@ == old(self).pending@,
            final(self).pending@ =~= Seq::<WindowAction>::empty(),
            final(self).wrapper == old(self).wrapper,
    {
        let mut out: Vec<WindowAction> = Vec::new();
        core::mem::swap(&mut out, &mut self.pending);
        out
    }
}

} // verus!
