use winsafe::co::HRESULT;
use winsafe::guard::{
    CloseHandleGuard, CoUninitializeGuard, DeleteObjectGuard, DestroyCursorGuard, DestroyIconGuard,
};
use winsafe::handles::{Handle, HBITMAP, HCURSOR, HICON, HSTD};

#[test]
fn close_handle_guard_owns_and_detaches() {
    let g = CloseHandleGuard::new(HSTD(9));
    assert_eq!(g.handle().as_raw(), 9);
    let h = g.leak();
    assert_eq!(h, HSTD(9));
}

#[test]
fn delete_object_guard_owns_and_detaches() {
    let g = DeleteObjectGuard::new(HBITMAP(33));
    assert_eq!(g.handle(), HBITMAP(33));
    assert_eq!(g.leak(), HBITMAP(33));
}

#[test]
fn cursor_and_icon_guards_keep_handle_identity() {
    let gc = DestroyCursorGuard::new(HCURSOR(4));
    assert_eq!(gc.handle(), HCURSOR(4));
    assert_eq!(gc.leak(), HCURSOR(4));
    let gi = DestroyIconGuard::new(HICON(6));
    assert_eq!(gi.handle(), HICON(6));
    assert_eq!(gi.leak(), HICON(6));
}

#[test]
fn co_uninitialize_guard_keeps_the_status() {
    let g = CoUninitializeGuard::new(HRESULT(1));
    assert_eq!(g.hr(), HRESULT(1));
}
