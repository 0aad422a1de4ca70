//! Creation state machine shared by all native child controls.
//!
//! A control starts detached: no window of its own, and handlers may still
//! be registered. Once its parent window exists and its own window is
//! created — or looked up, for dialog controls — the handle is recorded and
//! registration closes. The OS calls themselves happen outside; their raw
//! outcomes are handed in and classified here.

use vstd::prelude::*;
use crate::co::{ERROR, WC_DIALOG, WM_NCDESTROY};
use crate::gui::events::MsgEvents;
use crate::gui::globals::SubclassIdGen;
use crate::handles::HWND;
use crate::msg::WndMsg;
use crate::results::SysResult;

verus! {

/// What the registered handlers did with a message.
#[derive(Clone, Copy, PartialEq, Eq, Structural, Debug)]
pub enum ProcessResult {
    /// A handler took the message and chose the value to return.
    HandledWithRet(isize),
    /// A handler took the message; zero is returned.
    HandledWithoutRet,
    /// No handler took the message.
    NotHandled,
}

/// What a subclass callback must do after the handlers ran.
#[derive(Clone, Copy, PartialEq, Eq, Structural, Debug)]
pub enum SubclassReply {
    /// Return this value to the sender.
    Return(isize),
    /// Hand the message on to the default subclass procedure.
    CallDefault,
}

/// The full decision of one subclass callback invocation.
#[derive(Clone, Copy, PartialEq, Eq, Structural, Debug)]
pub struct SubclassOutcome {
    /// Whether the subclass must now be removed: true exactly on the final
    /// teardown message, which is always honoured.
    pub remove_subclass: bool,
    /// What to reply to the sender.
    pub reply: SubclassReply,
}

/// The decision of the subclass callback: handlers only count while the
/// control is alive (its recorded state still reachable and its window still
/// set); the teardown message always uninstalls the subclass; an unhandled
/// message goes to the default procedure.
pub fn subclass_proc(msg: WndMsg, target_alive: bool, processed: ProcessResult) -> (d:
    SubclassOutcome)
    ensures
        d.remove_subclass == (msg.msg_id == WM_NCDESTROY),
        !target_alive ==> d.reply == SubclassReply::CallDefault,
        target_alive ==> match processed {
            ProcessResult::HandledWithRet(v) => d.reply == SubclassReply::Return(v),
            ProcessResult::HandledWithoutRet => d.reply == SubclassReply::Return(0isize),
            ProcessResult::NotHandled => d.reply == SubclassReply::CallDefault,
        },
{
    let reply = if target_alive {
        match processed {
            ProcessResult::HandledWithRet(v) => SubclassReply::Return(v),
            ProcessResult::HandledWithoutRet => SubclassReply::Return(0),
            ProcessResult::NotHandled => SubclassReply::CallDefault,
        }
    } else {
        SubclassReply::CallDefault
    };
    SubclassOutcome { remove_subclass: msg.msg_id == WM_NCDESTROY, reply }
}

/// Base to all native child controls: the control's window handle, its
/// identifier, the parent's window handle as last notified, and the event
/// registries.
pub struct NativeControlBase<Ev> {
    hwnd: HWND,
    ctrl_id: u16,
    parent_hwnd: HWND,
    parent_events: Ev,
    subclass_events: MsgEvents,
}

impl<Ev> NativeControlBase<Ev> {
    /// The control's own window handle; null until creation.
    pub closed spec fn hwnd_spec(&self) -> HWND {
        self.hwnd
    }

    /// The control's identifier.
    pub closed spec fn ctrl_id_spec(&self) -> u16 {
        self.ctrl_id
    }

    /// The parent's window handle as last notified; null until the parent
    /// window exists.
    pub closed spec fn parent_hwnd_spec(&self) -> HWND {
        self.parent_hwnd
    }

    /// The control-specific event registry.
    pub closed spec fn parent_events_spec(&self) -> Ev {
        self.parent_events
    }

    /// The subclass registry's message identifiers.
    pub closed spec fn subclass_msgs_spec(&self) -> Seq<u32> {
        self.subclass_events.msgs_spec()
    }

    /// Whether the control itself has been created.
    pub open spec fn created(&self) -> bool {
        self.hwnd_spec().0 != 0
    }

    /// Whether the parent window has been created, as last notified.
    pub open spec fn parent_created(&self) -> bool {
        self.parent_hwnd_spec().0 != 0
    }

    /// A fresh control base: no window yet, an empty subclass registry, and
    /// the parent's window handle as it stands now (null while the parent
    /// window does not exist yet).
    pub fn new(parent_hwnd: HWND, ctrl_id: u16, parent_events: Ev) -> (c: Self)
        ensures
            c.hwnd_spec() == HWND(0),
            c.ctrl_id_spec() == ctrl_id,
            c.parent_hwnd_spec() == parent_hwnd,
            c.parent_events_spec() == parent_events,
            c.subclass_msgs_spec() == Seq::<u32>::empty(),
    {
        NativeControlBase {
            hwnd: HWND(0),
            ctrl_id,
            parent_hwnd,
            parent_events,
            subclass_events: MsgEvents::new(),
        }
    }

    /// Whether the parent window has been created.
    pub fn is_parent_created(&self) -> (r: bool)
        ensures
            r == self.parent_created(),
    {
        self.parent_hwnd.0 != 0
    }

    /// The control's own window handle; null until creation.
    pub fn hwnd(&self) -> (h: HWND)
        ensures
            h == self.hwnd_spec(),
    {
        self.hwnd
    }

    /// The control's identifier.
    pub fn ctrl_id(&self) -> (id: u16)
        ensures
            id == self.ctrl_id_spec(),
    {
        self.ctrl_id
    }

    /// Records that the parent window now exists under the given handle.
    pub fn notify_parent_created(&mut self, parent_hwnd: HWND)
        requires
            parent_hwnd.0 != 0,
        ensures
            final(self).parent_hwnd_spec() == parent_hwnd,
            final(self).hwnd_spec() == old(self).hwnd_spec(),
            final(self).ctrl_id_spec() == old(self).ctrl_id_spec(),
            final(self).parent_events_spec() == old(self).parent_events_spec(),
            final(self).subclass_msgs_spec() == old(self).subclass_msgs_spec(),
    {
        self.parent_hwnd = parent_hwnd;
    }

    /// The control-specific event registry, readable only while handlers may
    /// still be registered: before the control and before the parent window
    /// exist.
    pub fn on(&self) -> (r: &Ev)
        requires
            !self.created(),
            !self.parent_created(),
        ensures
            *r == self.parent_events_spec(),
    {
        &self.parent_events
    }

    /// Mutable access to the control-specific event registry for handler
    /// registration, only while the control and the parent window do not
    /// exist yet.
    pub fn on_mut_events(&mut self) -> (r: &mut Ev)
        requires
            !old(self).created(),
            !old(self).parent_created(),
        ensures
            *r == old(self).parent_events_spec(),
            final(self).parent_events_spec() == *final(r),
            final(self).hwnd_spec() == old(self).hwnd_spec(),
            final(self).ctrl_id_spec() == old(self).ctrl_id_spec(),
            final(self).parent_hwnd_spec() == old(self).parent_hwnd_spec(),
            final(self).subclass_msgs_spec() == old(self).subclass_msgs_spec(),
    {
        &mut self.parent_events
    }

    /// The subclass registry, readable only while handlers may still be
    /// registered: before the control and before the parent window exist.
    pub fn on_subclass(&self) -> (r: &MsgEvents)
        requires
            !self.created(),
            !self.parent_created(),
        ensures
            r.msgs_spec() == self.subclass_msgs_spec(),
    {
        &self.subclass_events
    }

    /// Registers a subclass handler for the given message, only while the
    /// control and the parent window do not exist yet.
    pub fn wm_subclass(&mut self, msg_id: u32)
        requires
            !old(self).created(),
            !old(self).parent_created(),
        ensures
            final(self).subclass_msgs_spec() == old(self).subclass_msgs_spec().push(msg_id),
            final(self).hwnd_spec() == old(self).hwnd_spec(),
            final(self).ctrl_id_spec() == old(self).ctrl_id_spec(),
            final(self).parent_hwnd_spec() == old(self).parent_hwnd_spec(),
            final(self).parent_events_spec() == old(self).parent_events_spec(),
    {
        self.subclass_events.wm(msg_id);
    }

    /// Applies the outcome of the window-creation call for this control:
    /// a null handle is the failure carried by the last-error code and the
    /// control stays uncreated; any other handle becomes the control's
    /// window. Requires the parent window to exist and the control not to be
    /// created twice.
    pub fn create_window(&mut self, raw_hwnd: usize, last_error: ERROR) -> (r: SysResult<HWND>)
        requires
            !old(self).created(),
            old(self).parent_created(),
        ensures
            final(self).ctrl_id_spec() == old(self).ctrl_id_spec(),
            final(self).parent_hwnd_spec() == old(self).parent_hwnd_spec(),
            final(self).parent_events_spec() == old(self).parent_events_spec(),
            final(self).subclass_msgs_spec() == old(self).subclass_msgs_spec(),
            raw_hwnd == 0 ==> r == SysResult::<HWND>::Err(last_error)
                && final(self).hwnd_spec() == old(self).hwnd_spec(),
            raw_hwnd != 0 ==> r == SysResult::<HWND>::Ok(HWND(raw_hwnd))
                && final(self).hwnd_spec() == HWND(raw_hwnd),
    {
        if raw_hwnd == 0 {
            Err(last_error)
        } else {
            self.hwnd = HWND(raw_hwnd);
            Ok(self.hwnd)
        }
    }

    /// Applies the outcome of the dialog-item lookup for this control: only
    /// a parent of the built-in dialog class can carry dialog controls, so
    /// the parent's class atom must be the dialog atom; a null handle is the
    /// failure carried by the last-error code, any other handle becomes the
    /// control's window.
    pub fn create_dlg(&mut self, parent_atom: u16, raw_hwnd: usize, last_error: ERROR) -> (r:
        SysResult<HWND>)
        requires
            !old(self).created(),
            old(self).parent_created(),
            parent_atom == WC_DIALOG,
        ensures
            final(self).ctrl_id_spec() == old(self).ctrl_id_spec(),
            final(self).parent_hwnd_spec() == old(self).parent_hwnd_spec(),
            final(self).parent_events_spec() == old(self).parent_events_spec(),
            final(self).subclass_msgs_spec() == old(self).subclass_msgs_spec(),
            raw_hwnd == 0 ==> r == SysResult::<HWND>::Err(last_error)
                && final(self).hwnd_spec() == old(self).hwnd_spec(),
            raw_hwnd != 0 ==> r == SysResult::<HWND>::Ok(HWND(raw_hwnd))
                && final(self).hwnd_spec() == HWND(raw_hwnd),
    {
        if raw_hwnd == 0 {
            Err(last_error)
        } else {
            self.hwnd = HWND(raw_hwnd);
            Ok(self.hwnd)
        }
    }

    /// Decides whether the created control must be subclassed: exactly when
    /// at least one subclass handler is registered. When it must, a fresh
    /// installation identifier is drawn from the injected generator and
    /// returned for the caller's installation call.
    pub fn install_subclass_if_needed(&self, id_gen: &mut SubclassIdGen) -> (r: Option<usize>)
        requires
            old(id_gen).next_spec() < usize::MAX,
        ensures
            self.subclass_msgs_spec().len() == 0 ==> r == Option::<usize>::None
                && final(id_gen).next_spec() == old(id_gen).next_spec(),
            self.subclass_msgs_spec().len() != 0 ==> r == Option::<usize>::Some(
                old(id_gen).next_spec())
                && final(id_gen).next_spec() == old(id_gen).next_spec() + 1,
    {
        if self.subclass_events.is_empty() {
            None
        } else {
            Some(id_gen.next_subclass_id())
        }
    }
}

} // verus!
