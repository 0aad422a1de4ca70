//! Injected sequence generators for the identifiers the controls need.
//!
//! Each generator is owned by the calling context and handed in where a
//! fresh identifier is needed, so no process-wide state exists and every
//! identifier handed out is provably fresh and distinct.

use vstd::prelude::*;

verus! {

/// First control identifier the automatic generator hands out.
pub const FIRST_AUTO_CTRL_ID: u16 = 20000;

/// Generator of automatic control identifiers, counting upward.
pub struct CtrlIdGen {
    next_id: u16,
}

impl CtrlIdGen {
    /// The identifier the next call will hand out.
    pub closed spec fn next_spec(&self) -> u16 {
        self.next_id
    }

    /// The generator's invariant: it never hands out an identifier below
    /// the automatic range, and in particular never zero.
    pub open spec fn wf(&self) -> bool {
        self.next_spec() >= FIRST_AUTO_CTRL_ID
    }

    /// A fresh generator starting at the first automatic identifier.
    pub fn new() -> (g: Self)
        ensures
            g.next_spec() == FIRST_AUTO_CTRL_ID,
            g.wf(),
    {
        CtrlIdGen { next_id: FIRST_AUTO_CTRL_ID }
    }

    /// Hands out the next identifier; identifiers strictly grow, so no two
    /// calls hand out the same one, and none is zero.
    pub fn next_ctrl_id(&mut self) -> (id: u16)
        requires
            old(self).wf(),
            old(self).next_spec() < u16::MAX,
        ensures
            final(self).wf(),
            id == old(self).next_spec(),
            final(self).next_spec() == old(self).next_spec() + 1,
            id != 0,
    {
        let id = self.next_id;
        self.next_id = self.next_id + 1;
        id
    }
}

/// Generator of subclass installation identifiers, counting upward from one.
pub struct SubclassIdGen {
    next_id: usize,
}

impl SubclassIdGen {
    /// The identifier the next call will hand out.
    pub closed spec fn next_spec(&self) -> usize {
        self.next_id
    }

    /// A fresh generator; the first identifier handed out is one.
    pub fn new() -> (g: Self)
        ensures
            g.next_spec() == 1,
    {
        SubclassIdGen { next_id: 1 }
    }

    /// Hands out the next identifier; identifiers strictly grow, so no two
    /// calls hand out the same one.
    pub fn next_subclass_id(&mut self) -> (id: usize)
        requires
            old(self).next_spec() < usize::MAX,
        ensures
            id == old(self).next_spec(),
            final(self).next_spec() == old(self).next_spec() + 1,
    {
        let id = self.next_id;
        self.next_id = self.next_id + 1;
        id
    }
}

} // verus!
