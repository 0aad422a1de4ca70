//! The native push-button control: construction, event registration, and
//! the creation state machine around the window-creation outcome.

use vstd::prelude::*;
use crate::co::{
    BS_PUSHBUTTON, ERROR, WC_DIALOG, WM_COMMAND, WS_CHILD, WS_EX_LEFT, WS_GROUP, WS_TABSTOP,
    WS_VISIBLE, BN_CLICKED,
};
use crate::gui::events::{ButtonEvents, MsgEvents};
use crate::gui::globals::CtrlIdGen;
use crate::gui::native_control_base::NativeControlBase;
use crate::handles::HWND;
use crate::msg::WndMsg;
use crate::results::SysResult;
use crate::structs::{POINT, SIZE};

verus! {

/// Options for creating a button control.
pub struct ButtonOpts {
    /// Text of the button to be created. Defaults to the empty string.
    pub text: String,
    /// Button position within the parent client area, in pixels. Defaults
    /// to the origin.
    pub pos: POINT,
    /// Button width, in pixels. Defaults to 80.
    pub width: u32,
    /// Button height, in pixels. Defaults to 23.
    pub height: u32,
    /// Button styles. Defaults to a plain push button.
    pub button_style: u32,
    /// Window styles. Defaults to a visible child in the tab order that
    /// starts a group.
    pub window_style: u32,
    /// Extended window styles. Defaults to left-aligned.
    pub ex_window_style: u32,
    /// The control identifier; zero asks for an automatically generated one.
    pub ctrl_id: u16,
}

impl Default for ButtonOpts {
    /// The documented defaults, with an automatically generated identifier.
    fn default() -> (o: ButtonOpts)
        ensures
            o.text@ == Seq::<char>::empty(),
            o.pos == (POINT { x: 0, y: 0 }),
            o.width == 80u32,
            o.height == 23u32,
            o.button_style == BS_PUSHBUTTON,
            o.window_style == WS_CHILD | WS_VISIBLE | WS_TABSTOP | WS_GROUP,
            o.ex_window_style == WS_EX_LEFT,
            o.ctrl_id == 0u16,
    {
        ButtonOpts {
            text: String::new(),
            pos: POINT { x: 0, y: 0 },
            width: 80,
            height: 23,
            button_style: BS_PUSHBUTTON,
            window_style: WS_CHILD | WS_VISIBLE | WS_TABSTOP | WS_GROUP,
            ex_window_style: WS_EX_LEFT,
            ctrl_id: 0,
        }
    }
}

impl ButtonOpts {
    /// Settles the control identifier: zero is replaced by a fresh
    /// automatically generated one, anything else is kept.
    pub fn define_ctrl_id(self, id_gen: &mut CtrlIdGen) -> (o: ButtonOpts)
        requires
            old(id_gen).wf(),
            old(id_gen).next_spec() < u16::MAX,
        ensures
            final(id_gen).wf(),
            self.ctrl_id != 0 ==> o.ctrl_id == self.ctrl_id
                && final(id_gen).next_spec() == old(id_gen).next_spec(),
            self.ctrl_id == 0 ==> o.ctrl_id == old(id_gen).next_spec()
                && final(id_gen).next_spec() == old(id_gen).next_spec() + 1,
            o.ctrl_id != 0 || self.ctrl_id != 0,
            o.text@ == self.text@,
            o.pos == self.pos,
            o.width == self.width,
            o.height == self.height,
            o.button_style == self.button_style,
            o.window_style == self.window_style,
            o.ex_window_style == self.ex_window_style,
    {
        let mut o = self;
        if o.ctrl_id == 0 {
            o.ctrl_id = id_gen.next_ctrl_id();
        }
        o
    }
}

/// What the creation call of a windowed button must pass: the text, the
/// position and size, the combined style words, and the control identifier.
/// The window class is the fixed built-in button class.
pub struct CreateWindowRequest {
    /// The control's text.
    pub text: String,
    /// The position within the parent client area.
    pub pos: POINT,
    /// The size in pixels.
    pub size: SIZE,
    /// The window styles combined with the button styles.
    pub style: u32,
    /// The extended window styles.
    pub ex_style: u32,
    /// The control identifier.
    pub ctrl_id: u16,
}

/// How a button is to come into being: created as a window with options, or
/// looked up in a dialog resource by identifier.
pub enum OptsId {
    /// Create the control with these options.
    Wnd(ButtonOpts),
    /// Look the control up in the parent dialog under this identifier.
    Dlg(u16),
}

/// A native push-button control.
pub struct Button {
    base: NativeControlBase<ButtonEvents>,
    opts_id: OptsId,
}

impl Button {
    /// The button's window handle; null until creation.
    pub closed spec fn hwnd_spec(&self) -> HWND {
        self.base.hwnd_spec()
    }

    /// The button's control identifier.
    pub closed spec fn ctrl_id_spec(&self) -> u16 {
        self.base.ctrl_id_spec()
    }

    /// The parent's window handle as last notified.
    pub closed spec fn parent_hwnd_spec(&self) -> HWND {
        self.base.parent_hwnd_spec()
    }

    /// The button's event registry.
    pub closed spec fn events_spec(&self) -> ButtonEvents {
        self.base.parent_events_spec()
    }

    /// The subclass registry's message identifiers.
    pub closed spec fn subclass_msgs_spec(&self) -> Seq<u32> {
        self.base.subclass_msgs_spec()
    }

    /// Whether the button's window has been created.
    pub open spec fn created(&self) -> bool {
        self.hwnd_spec().0 != 0
    }

    /// Whether the parent window has been created, as last notified.
    pub open spec fn parent_created(&self) -> bool {
        self.parent_hwnd_spec().0 != 0
    }

    /// Whether this button is to be looked up in a dialog resource.
    pub closed spec fn is_dlg(&self) -> bool {
        match self.opts_id {
            OptsId::Wnd(_) => false,
            OptsId::Dlg(_) => true,
        }
    }

    /// The creation options of a windowed button; nothing for a dialog
    /// button.
    pub closed spec fn wnd_opts_spec(&self) -> Option<ButtonOpts> {
        match self.opts_id {
            OptsId::Wnd(o) => Some(o),
            OptsId::Dlg(_) => None,
        }
    }

    /// A new button to be created on the parent window with the given
    /// options; a zero identifier in the options is replaced by a fresh
    /// automatically generated one.
    pub fn new(parent_hwnd: HWND, opts: ButtonOpts, id_gen: &mut CtrlIdGen) -> (b: Button)
        requires
            old(id_gen).wf(),
            old(id_gen).next_spec() < u16::MAX,
        ensures
            final(id_gen).wf(),
            b.hwnd_spec() == HWND(0),
            b.parent_hwnd_spec() == parent_hwnd,
            !b.is_dlg(),
            opts.ctrl_id != 0 ==> b.ctrl_id_spec() == opts.ctrl_id,
            opts.ctrl_id == 0 ==> b.ctrl_id_spec() == old(id_gen).next_spec(),
            b.ctrl_id_spec() != 0,
            b.events_spec().ctrl_id_spec() == b.ctrl_id_spec(),
            b.events_spec().clicks_spec() == 0,
            b.subclass_msgs_spec() == Seq::<u32>::empty(),
            b.wnd_opts_spec() matches Some(o) && o.text@ == opts.text@ && o.pos == opts.pos
                && o.width == opts.width && o.height == opts.height && o.button_style
                == opts.button_style && o.window_style == opts.window_style && o.ex_window_style
                == opts.ex_window_style && o.ctrl_id == b.ctrl_id_spec(),
    {
        let opts = opts.define_ctrl_id(id_gen);
        let ctrl_id = opts.ctrl_id;
        Button {
            base: NativeControlBase::new(parent_hwnd, ctrl_id, ButtonEvents::new(ctrl_id)),
            opts_id: OptsId::Wnd(opts),
        }
    }

    /// A new button to be created on the parent window under a specific
    /// control identifier, with default options otherwise.
    pub fn new_with_id(parent_hwnd: HWND, ctrl_id: u16) -> (b: Button)
        requires
            ctrl_id != 0,
        ensures
            b.hwnd_spec() == HWND(0),
            b.parent_hwnd_spec() == parent_hwnd,
            b.ctrl_id_spec() == ctrl_id,
            !b.is_dlg(),
            b.events_spec().ctrl_id_spec() == ctrl_id,
            b.events_spec().clicks_spec() == 0,
            b.subclass_msgs_spec() == Seq::<u32>::empty(),
            b.wnd_opts_spec() matches Some(o) && o.text@ == Seq::<char>::empty() && o.pos
                == (POINT { x: 0, y: 0 }) && o.width == 80u32 && o.height == 23u32
                && o.button_style == BS_PUSHBUTTON && o.window_style == WS_CHILD | WS_VISIBLE
                | WS_TABSTOP | WS_GROUP && o.ex_window_style == WS_EX_LEFT && o.ctrl_id == ctrl_id,
    {
        let mut opts = ButtonOpts::default();
        opts.ctrl_id = ctrl_id;
        Button {
            base: NativeControlBase::new(parent_hwnd, ctrl_id, ButtonEvents::new(ctrl_id)),
            opts_id: OptsId::Wnd(opts),
        }
    }

    /// A new button to be looked up in the parent dialog resource under the
    /// given control identifier.
    pub fn new_dlg(parent_hwnd: HWND, ctrl_id: u16) -> (b: Button)
        ensures
            b.hwnd_spec() == HWND(0),
            b.parent_hwnd_spec() == parent_hwnd,
            b.ctrl_id_spec() == ctrl_id,
            b.is_dlg(),
            b.events_spec().ctrl_id_spec() == ctrl_id,
            b.events_spec().clicks_spec() == 0,
            b.subclass_msgs_spec() == Seq::<u32>::empty(),
    {
        Button {
            base: NativeControlBase::new(parent_hwnd, ctrl_id, ButtonEvents::new(ctrl_id)),
            opts_id: OptsId::Dlg(ctrl_id),
        }
    }

    /// The button's window handle; null until the control is created.
    pub fn hwnd(&self) -> (h: HWND)
        ensures
            h == self.hwnd_spec(),
    {
        self.base.hwnd()
    }

    /// The button's control identifier.
    pub fn ctrl_id(&self) -> (id: u16)
        ensures
            id == self.ctrl_id_spec(),
    {
        self.base.ctrl_id()
    }

    /// Records that the parent window now exists under the given handle.
    pub fn notify_parent_created(&mut self, parent_hwnd: HWND)
        requires
            parent_hwnd.0 != 0,
        ensures
            final(self).parent_hwnd_spec() == parent_hwnd,
            final(self).hwnd_spec() == old(self).hwnd_spec(),
            final(self).ctrl_id_spec() == old(self).ctrl_id_spec(),
            final(self).events_spec() == old(self).events_spec(),
            final(self).subclass_msgs_spec() == old(self).subclass_msgs_spec(),
            final(self).is_dlg() == old(self).is_dlg(),
    {
        self.base.notify_parent_created(parent_hwnd);
    }

    /// The button's event registry, readable only while handlers may still
    /// be registered: before the control and before the parent window exist.
    pub fn on(&self) -> (r: &ButtonEvents)
        requires
            !self.created(),
            !self.parent_created(),
        ensures
            *r == self.events_spec(),
    {
        self.base.on()
    }

    /// Registers one more click handler, only while the control and the
    /// parent window do not exist yet.
    pub fn bn_clicked(&mut self)
        requires
            !old(self).created(),
            !old(self).parent_created(),
            old(self).events_spec().clicks_spec() < usize::MAX,
        ensures
            final(self).events_spec().clicks_spec() == old(self).events_spec().clicks_spec() + 1,
            final(self).events_spec().ctrl_id_spec() == old(self).events_spec().ctrl_id_spec(),
            final(self).hwnd_spec() == old(self).hwnd_spec(),
            final(self).ctrl_id_spec() == old(self).ctrl_id_spec(),
            final(self).parent_hwnd_spec() == old(self).parent_hwnd_spec(),
            final(self).subclass_msgs_spec() == old(self).subclass_msgs_spec(),
            final(self).is_dlg() == old(self).is_dlg(),
    {
        self.base.on_mut_events().bn_clicked();
    }

    /// The subclass registry, readable only while handlers may still be
    /// registered: before the control and before the parent window exist.
    pub fn on_subclass(&self) -> (r: &MsgEvents)
        requires
            !self.created(),
            !self.parent_created(),
        ensures
            r.msgs_spec() == self.subclass_msgs_spec(),
    {
        self.base.on_subclass()
    }

    /// Registers a subclass handler for the given message, only while the
    /// control and the parent window do not exist yet.
    pub fn wm_subclass(&mut self, msg_id: u32)
        requires
            !old(self).created(),
            !old(self).parent_created(),
        ensures
            final(self).subclass_msgs_spec() == old(self).subclass_msgs_spec().push(msg_id),
            final(self).hwnd_spec() == old(self).hwnd_spec(),
            final(self).ctrl_id_spec() == old(self).ctrl_id_spec(),
            final(self).parent_hwnd_spec() == old(self).parent_hwnd_spec(),
            final(self).events_spec() == old(self).events_spec(),
            final(self).is_dlg() == old(self).is_dlg(),
    {
        self.base.wm_subclass(msg_id);
    }

    /// Applies the outcome of physically creating the control: for a
    /// windowed button the window-creation call, for a dialog button the
    /// dialog-item lookup, whose parent must carry the dialog class atom.
    /// A null handle is the failure carried by the last-error code and the
    /// button stays uncreated; any other handle becomes the button's window.
    /// Requires the parent window to exist and the control not to be created
    /// twice.
    pub fn create(&mut self, raw_hwnd: usize, last_error: ERROR, parent_atom: u16) -> (r:
        SysResult<()>)
        requires
            !old(self).created(),
            old(self).parent_created(),
            old(self).is_dlg() ==> parent_atom == WC_DIALOG,
        ensures
            final(self).ctrl_id_spec() == old(self).ctrl_id_spec(),
            final(self).parent_hwnd_spec() == old(self).parent_hwnd_spec(),
            final(self).events_spec() == old(self).events_spec(),
            final(self).subclass_msgs_spec() == old(self).subclass_msgs_spec(),
            final(self).is_dlg() == old(self).is_dlg(),
            raw_hwnd == 0 ==> r == SysResult::<()>::Err(last_error)
                && final(self).hwnd_spec() == old(self).hwnd_spec(),
            raw_hwnd != 0 ==> r == SysResult::<()>::Ok(())
                && final(self).hwnd_spec() == HWND(raw_hwnd),
    {
        let outcome = match &self.opts_id {
            OptsId::Wnd(_) => self.base.create_window(raw_hwnd, last_error),
            OptsId::Dlg(_) => self.base.create_dlg(parent_atom, raw_hwnd, last_error),
        };
        match outcome {
            Ok(_) => Ok(()),
            Err(e) => Err(e),
        }
    }

    /// The request a windowed button's creation call must carry: the stored
    /// options with the window and button style words combined and the size
    /// assembled from width and height. A dialog button is looked up, not
    /// created, and has no request.
    pub fn creation_request(&self) -> (r: Option<CreateWindowRequest>)
        ensures
            self.is_dlg() ==> r is None,
            !self.is_dlg() ==> (r matches Some(q) && self.wnd_opts_spec() matches Some(o)
                && q.text@ == o.text@ && q.pos == o.pos && q.size == (SIZE {
                cx: o.width as i32,
                cy: o.height as i32,
            }) && q.style == (o.window_style | o.button_style) && q.ex_style == o.ex_window_style
                && q.ctrl_id == self.ctrl_id_spec()),
    {
        match &self.opts_id {
            OptsId::Wnd(o) => Some(
                CreateWindowRequest {
                    text: o.text.clone(),
                    pos: o.pos,
                    size: SIZE { cx: o.width as i32, cy: o.height as i32 },
                    style: o.window_style | o.button_style,
                    ex_style: o.ex_window_style,
                    ctrl_id: self.base.ctrl_id(),
                },
            ),
            OptsId::Dlg(_) => None,
        }
    }

    /// The command message that fires this button's click event: the
    /// notification code and control identifier packed in the first
    /// parameter, the button's window handle in the second.
    pub fn trigger_click(&self) -> (m: WndMsg)
        ensures
            m.msg_id == WM_COMMAND,
            m.wparam == (self.ctrl_id_spec() as usize) | ((BN_CLICKED as usize) << 16),
            m.lparam == self.hwnd_spec().0 as isize,
    {
        WndMsg {
            msg_id: WM_COMMAND,
            wparam: (self.base.ctrl_id() as usize) | ((BN_CLICKED as usize) << 16),
            lparam: self.base.hwnd().0 as isize,
        }
    }
}

} // verus!
