//! Event registries for controls.
//!
//! The handlers themselves are the calling context's code and run outside
//! the library; the registries record which events have a handler, which is
//! all the creation logic needs: a control is subclassed exactly when its
//! subclass registry is non-empty, and registration is only allowed before
//! the control and its parent exist.

use vstd::prelude::*;

verus! {

/// Registry of plain window-message handlers, by message identifier.
pub struct MsgEvents {
    msgs: Vec<u32>,
}

impl MsgEvents {
    /// The message identifiers that have a handler, in registration order.
    pub closed spec fn msgs_spec(&self) -> Seq<u32> {
        self.msgs@
    }

    /// An empty registry.
    pub fn new() -> (e: Self)
        ensures
            e.msgs_spec() == Seq::<u32>::empty(),
    {
        let e = MsgEvents { msgs: Vec::new() };
        proof {
            assert(e.msgs@ =~= Seq::<u32>::empty());
        }
        e
    }

    /// Records that the given message now has a handler.
    pub fn wm(&mut self, msg_id: u32)
        ensures
            final(self).msgs_spec() == old(self).msgs_spec().push(msg_id),
    {
        self.msgs.push(msg_id);
    }

    /// Whether no handler is registered.
    pub fn is_empty(&self) -> (r: bool)
        ensures
            r == (self.msgs_spec().len() == 0),
    {
        self.msgs.len() == 0
    }

    /// How many handlers are registered.
    pub fn len(&self) -> (n: usize)
        ensures
            n == self.msgs_spec().len(),
    {
        self.msgs.len()
    }
}

/// Registry of button notification handlers: the control identifier the
/// button reports with, and how many click handlers were registered.
pub struct ButtonEvents {
    ctrl_id: u16,
    clicks: usize,
}

impl ButtonEvents {
    /// The control identifier the button reports with.
    pub closed spec fn ctrl_id_spec(&self) -> u16 {
        self.ctrl_id
    }

    /// How many click handlers are registered.
    pub closed spec fn clicks_spec(&self) -> usize {
        self.clicks
    }

    /// An empty registry for the control with the given identifier.
    pub fn new(ctrl_id: u16) -> (e: Self)
        ensures
            e.ctrl_id_spec() == ctrl_id,
            e.clicks_spec() == 0,
    {
        ButtonEvents { ctrl_id, clicks: 0 }
    }

    /// Records one more click handler.
    pub fn bn_clicked(&mut self)
        requires
            old(self).clicks_spec() < usize::MAX,
        ensures
            final(self).clicks_spec() == old(self).clicks_spec() + 1,
            final(self).ctrl_id_spec() == old(self).ctrl_id_spec(),
    {
        self.clicks = self.clicks + 1;
    }

    /// How many click handlers are registered.
    pub fn clicks(&self) -> (n: usize)
        ensures
            n == self.clicks_spec(),
    {
        self.clicks
    }
}

} // verus!
