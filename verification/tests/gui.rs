use winsafe::co::{
    ERROR, BN_CLICKED, BS_PUSHBUTTON, WC_DIALOG, WM_COMMAND, WM_NCDESTROY, WS_CHILD, WS_GROUP,
    WS_TABSTOP, WS_VISIBLE,
};
use winsafe::gui::button::{Button, ButtonOpts};
use winsafe::gui::events::MsgEvents;
use winsafe::gui::globals::{CtrlIdGen, SubclassIdGen, FIRST_AUTO_CTRL_ID};
use winsafe::gui::native_control_base::{
    subclass_proc, NativeControlBase, ProcessResult, SubclassReply,
};
use winsafe::handles::HWND;
use winsafe::msg::WndMsg;

#[test]
fn auto_ctrl_ids_are_fresh_and_distinct() {
    let mut gen = CtrlIdGen::new();
    let a = gen.next_ctrl_id();
    let b = gen.next_ctrl_id();
    assert_eq!(a, FIRST_AUTO_CTRL_ID);
    assert_eq!(b, FIRST_AUTO_CTRL_ID + 1);
    assert_ne!(a, b);
}

#[test]
fn define_ctrl_id_keeps_a_chosen_id() {
    let mut gen = CtrlIdGen::new();
    let mut opts = ButtonOpts::default();
    opts.ctrl_id = 77;
    let opts = opts.define_ctrl_id(&mut gen);
    assert_eq!(opts.ctrl_id, 77);
    let opts2 = ButtonOpts::default().define_ctrl_id(&mut gen);
    assert_eq!(opts2.ctrl_id, FIRST_AUTO_CTRL_ID);
}

#[test]
fn button_opts_defaults() {
    let o = ButtonOpts::default();
    assert_eq!(o.text, "");
    assert_eq!(o.width, 80);
    assert_eq!(o.height, 23);
    assert_eq!(o.ctrl_id, 0);
}

#[test]
fn button_records_events_then_creates() {
    let mut b = Button::new_with_id(HWND(0), 5);
    assert_eq!(b.ctrl_id(), 5);
    assert!(b.hwnd() == HWND(0));
    b.bn_clicked();
    b.bn_clicked();
    assert_eq!(b.on().clicks(), 2);
    b.wm_subclass(WM_COMMAND);
    assert_eq!(b.on_subclass().len(), 1);
    b.notify_parent_created(HWND(900));
    let r = b.create(1234, ERROR(0), 0);
    assert!(r.is_ok());
    assert_eq!(b.hwnd(), HWND(1234));
}

#[test]
fn button_creation_failure_keeps_it_uncreated() {
    let mut b = Button::new_with_id(HWND(0), 5);
    b.notify_parent_created(HWND(900));
    let r = b.create(0, ERROR(87), 0);
    assert_eq!(r.unwrap_err(), ERROR(87));
    assert_eq!(b.hwnd(), HWND(0));
}

#[test]
fn dialog_button_looks_up_its_item() {
    let mut b = Button::new_dlg(HWND(0), 40);
    assert_eq!(b.ctrl_id(), 40);
    b.notify_parent_created(HWND(20));
    let r = b.create(555, ERROR(0), WC_DIALOG);
    assert!(r.is_ok());
    assert_eq!(b.hwnd(), HWND(555));
}

#[test]
fn button_new_draws_an_auto_id() {
    let mut gen = CtrlIdGen::new();
    let b = Button::new(HWND(0), ButtonOpts::default(), &mut gen);
    assert_eq!(b.ctrl_id(), FIRST_AUTO_CTRL_ID);
}

#[test]
fn trigger_click_packs_the_command() {
    let mut b = Button::new_with_id(HWND(0), 3);
    b.notify_parent_created(HWND(10));
    b.create(77, ERROR(0), 0).unwrap();
    let m = b.trigger_click();
    assert_eq!(m.msg_id, WM_COMMAND);
    assert_eq!(m.wparam, 3usize | ((BN_CLICKED as usize) << 16));
    assert_eq!(m.lparam, 77);
}

#[test]
fn creation_request_combines_styles() {
    let b = Button::new_with_id(HWND(0), 9);
    let q = b.creation_request().unwrap();
    assert_eq!(q.ctrl_id, 9);
    assert_eq!(q.text, "");
    assert_eq!(q.size.cx, 80);
    assert_eq!(q.size.cy, 23);
    assert_eq!(q.style, WS_CHILD | WS_VISIBLE | WS_TABSTOP | WS_GROUP | BS_PUSHBUTTON);
    assert_eq!(q.ex_style, 0);
    let d = Button::new_dlg(HWND(0), 4);
    assert!(d.creation_request().is_none());
}

#[test]
fn control_base_state_machine() {
    let mut c: NativeControlBase<u32> = NativeControlBase::new(HWND(0), 9, 0);
    assert!(!c.is_parent_created());
    assert_eq!(c.ctrl_id(), 9);
    c.notify_parent_created(HWND(44));
    assert!(c.is_parent_created());
    let r = c.create_window(600, ERROR(0));
    assert_eq!(r.unwrap(), HWND(600));
    assert_eq!(c.hwnd(), HWND(600));
}

#[test]
fn subclass_installs_only_with_handlers() {
    let mut id_gen = SubclassIdGen::new();
    let mut c: NativeControlBase<u32> = NativeControlBase::new(HWND(0), 9, 0);
    assert_eq!(c.install_subclass_if_needed(&mut id_gen), None);
    c.wm_subclass(WM_COMMAND);
    assert_eq!(c.install_subclass_if_needed(&mut id_gen), Some(1));
    assert_eq!(c.install_subclass_if_needed(&mut id_gen), Some(2));
}

#[test]
fn subclass_proc_decisions() {
    let msg = WndMsg { msg_id: WM_COMMAND, wparam: 0, lparam: 0 };
    let d = subclass_proc(msg, true, ProcessResult::HandledWithRet(7));
    assert!(!d.remove_subclass);
    assert_eq!(d.reply, SubclassReply::Return(7));
    let d = subclass_proc(msg, true, ProcessResult::HandledWithoutRet);
    assert_eq!(d.reply, SubclassReply::Return(0));
    let d = subclass_proc(msg, true, ProcessResult::NotHandled);
    assert_eq!(d.reply, SubclassReply::CallDefault);
    let d = subclass_proc(msg, false, ProcessResult::HandledWithRet(7));
    assert_eq!(d.reply, SubclassReply::CallDefault);
    let teardown = WndMsg { msg_id: WM_NCDESTROY, wparam: 0, lparam: 0 };
    let d = subclass_proc(teardown, false, ProcessResult::NotHandled);
    assert!(d.remove_subclass);
}

#[test]
fn msg_events_registry_counts() {
    let mut e = MsgEvents::new();
    assert!(e.is_empty());
    e.wm(WM_COMMAND);
    e.wm(WM_NCDESTROY);
    assert!(!e.is_empty());
    assert_eq!(e.len(), 2);
}
