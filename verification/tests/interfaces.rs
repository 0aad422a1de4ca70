use winsafe::co::{ERROR, HRESULT, SE_ERR, ERROR_SUCCESS};
use winsafe::dshow::{dshow_IMediaControl, IMediaControl};
use winsafe::gdi::{gdi_Hbitmap, gdi_Hinstance, BITMAP};
use winsafe::guard::{CloseHandleGuard, DeleteObjectGuard};
use winsafe::handles::{ComPtr, Handle, HBITMAP, HINSTANCE, HPROCESS, HSTD, HWND, INVALID_HANDLE_VALUE};
use winsafe::kernel::hstd::kernel_Hstd;
use winsafe::shell::hwnd::shell_Hwnd;
use winsafe::shell::ifiledialog::{shell_IFileDialog, IFileDialog};
use winsafe::shell::imodalwindow::{shell_IModalWindow, IModalWindow};
use winsafe::shell::ishellitem::{shell_IShellItem, IShellItem};
use winsafe::shell::itaskbarlist3::{shell_ITaskbarList3, ITaskbarList3};
use winsafe::user::{user_Hinstance, user_Hprocess, ATOM};

#[test]
fn std_device_acquisition_guards_the_handle() {
    let r: Result<CloseHandleGuard<HSTD>, ERROR> = HSTD::GetStdHandle(INVALID_HANDLE_VALUE, ERROR(6));
    match r {
        Err(e) => assert_eq!(e, ERROR(6)),
        Ok(_) => panic!("expected the carried failure"),
    }
    let r = HSTD::GetStdHandle(0, ERROR(6));
    assert!(r.is_err());
    let g = HSTD::GetStdHandle(300, ERROR(0)).unwrap();
    assert_eq!(g.handle(), HSTD(300));
    assert_eq!(g.leak(), HSTD(300));
}

#[test]
fn console_calls_classify() {
    let h = HSTD(3);
    assert_eq!(h.FlushConsoleInputBuffer(0, ERROR(5)), Err(ERROR(5)));
    assert_eq!(h.FlushConsoleInputBuffer(1, ERROR(5)), Ok(()));
    assert_eq!(h.GetConsoleMode(1, ERROR(0), 0x17), Ok(0x17));
    assert_eq!(h.SetConsoleMode(0, ERROR(87)), Err(ERROR(87)));
    assert_eq!(h.ReadConsole(1, ERROR(0), 40), Ok(40));
    assert_eq!(h.WriteConsole(0, ERROR(8), 0), Err(ERROR(8)));
    assert_eq!(h.WriteConsole(1, ERROR(0), 13), Ok(13));
}

#[test]
fn bitmap_acquisition_guards_the_handle() {
    let r: Result<DeleteObjectGuard<HBITMAP>, ERROR> = HBITMAP::CreateBitmap(0, ERROR(8));
    match r {
        Err(e) => assert_eq!(e, ERROR(8)),
        Ok(_) => panic!("expected the carried failure"),
    }
    let g = HBITMAP::CreateBitmap(91, ERROR(0)).unwrap();
    assert_eq!(g.handle(), HBITMAP(91));
    let bmp = BITMAP { bmWidth: 4, bmHeight: 3, bmBitsPixel: 32 };
    assert_eq!(g.handle().GetObject(1, ERROR(0), bmp), Ok(bmp));
    assert_eq!(g.handle().GetObject(0, ERROR(6), bmp), Err(ERROR(6)));
}

#[test]
fn image_loads_guard_their_handles() {
    let inst = HINSTANCE(1);
    assert!(inst.LoadImageBitmap(0, ERROR(2)).is_err());
    assert_eq!(inst.LoadImageBitmap(5, ERROR(0)).unwrap().handle(), HBITMAP(5));
    assert_eq!(inst.LoadImageCursor(6, ERROR(0)).unwrap().handle().0, 6);
    assert_eq!(inst.LoadImageIcon(7, ERROR(0)).unwrap().handle().0, 7);
}

#[test]
fn instance_loads_classify() {
    let inst = HINSTANCE(1);
    assert_eq!(inst.CreateDialogParam(0, ERROR(2)), Err(ERROR(2)));
    assert_eq!(inst.CreateDialogParam(9, ERROR(0)), Ok(HWND(9)));
    assert_eq!(inst.DialogBoxParam(-1, ERROR(3)), Err(ERROR(3)));
    assert_eq!(inst.DialogBoxParam(4, ERROR(0)), Ok(4));
    assert_eq!(inst.DialogBoxIndirectParam(-1, ERROR(3)), Err(ERROR(3)));
    assert_eq!(inst.GetClassInfoEx(0, ERROR(2)), Err(ERROR(2)));
    assert_eq!(inst.GetClassInfoEx(0x8002, ERROR(0)), Ok(ATOM(0x8002)));
    assert!(inst.LoadAccelerators(0, ERROR(2)).is_err());
    assert_eq!(inst.LoadCursor(8, ERROR(0)).unwrap().handle().0, 8);
    assert!(inst.LoadIcon(0, ERROR(2)).is_err());
    assert!(inst.LoadMenu(11, ERROR(0)).is_ok());
    assert_eq!(inst.LoadString(0, ERROR(2), String::new()), Err(ERROR(2)));
    assert_eq!(inst.LoadString(5, ERROR(0), "hello".to_string()), Ok("hello".to_string()));
}

#[test]
fn process_object_setting_classifies() {
    let p = HPROCESS(2);
    assert_eq!(p.SetUserObjectInformation(0, ERROR(5)), Err(ERROR(5)));
    assert_eq!(p.SetUserObjectInformation(1, ERROR(5)), Ok(()));
}

#[test]
fn window_text_retrieval_classifies() {
    let w = HWND(1);
    assert_eq!(w.GetWindowTextLength(0, ERROR(ERROR_SUCCESS)), Ok(0));
    assert_eq!(w.GetWindowTextLength(0, ERROR(5)), Err(ERROR(5)));
    assert_eq!(w.GetWindowTextLength(12, ERROR(0)), Ok(12));
    assert_eq!(w.GetWindowTextStr(0, 0, ERROR(0), "x".to_string()), Ok(String::new()));
    assert_eq!(w.GetWindowTextStr(5, 0, ERROR(ERROR_SUCCESS), "x".to_string()), Ok(String::new()));
    assert_eq!(w.GetWindowTextStr(5, 0, ERROR(5), "x".to_string()), Err(ERROR(5)));
    assert_eq!(w.GetWindowTextStr(5, 5, ERROR(0), "title".to_string()), Ok("title".to_string()));
}

#[test]
fn shell_execute_classifies_by_threshold() {
    let w = HWND(1);
    assert_eq!(w.ShellExecute(2), Err(SE_ERR(2)));
    assert_eq!(w.ShellExecute(32), Err(SE_ERR(32)));
    assert_eq!(w.ShellExecute(33), Ok(HINSTANCE(33)));
}

#[test]
fn modal_window_show_classifies() {
    let w = IModalWindow::from_ptr(ComPtr(9));
    assert_eq!(w.Show(0), Ok(true));
    assert_eq!(w.Show(0x800704C7), Ok(false));
    assert_eq!(w.Show(0x80004005), Err(HRESULT(0x80004005)));
}

#[test]
fn file_dialog_calls_classify() {
    let d = IFileDialog::from_ptr(ComPtr(9));
    assert_eq!(d.Show(0), Ok(true));
    assert_eq!(d.SetTitle(HRESULT(0)), Ok(()));
    assert_eq!(d.SetTitle(HRESULT(0x80004005)), Err(HRESULT(0x80004005)));
    assert_eq!(d.SetOptions(HRESULT(0)), Ok(()));
    assert_eq!(d.GetOptions(HRESULT(0), 0x200), Ok(0x200));
    assert_eq!(d.GetFileTypeIndex(HRESULT(0), 2), Ok(2));
    assert_eq!(d.GetFileName(HRESULT(0), "a.txt".to_string()), Ok("a.txt".to_string()));
    assert!(d.GetFileName(HRESULT(1), "a.txt".to_string()).is_err());
    let item = d.GetResult(HRESULT(0), ComPtr(70)).unwrap();
    assert_eq!(item.ptr(), ComPtr(70));
    assert!(d.GetFolder(HRESULT(0x80004005), ComPtr(70)).is_err());
    assert_eq!(d.SetFileTypes(HRESULT(0)), Ok(()));
    assert_eq!(d.Close(HRESULT(0)), Ok(()));
}

#[test]
fn shell_item_calls_classify() {
    let it = IShellItem::from_ptr(ComPtr(4));
    assert_eq!(it.GetDisplayName(HRESULT(0), "C:\\a".to_string()), Ok("C:\\a".to_string()));
    assert!(it.GetDisplayName(HRESULT(1), "C:\\a".to_string()).is_err());
    assert_eq!(it.GetAttributes(HRESULT(0), 0x40000000), Ok(0x40000000));
    assert_eq!(it.GetAttributes(HRESULT(1), 0x40000000), Ok(0x40000000));
    assert!(it.GetAttributes(HRESULT(0x80004005), 0).is_err());
    assert_eq!(it.GetParent(HRESULT(0), ComPtr(5)).unwrap().ptr(), ComPtr(5));
    assert_eq!(it.BindToHandler(HRESULT(0), ComPtr(6)), Ok(ComPtr(6)));
}

#[test]
fn taskbar_calls_classify() {
    let t = ITaskbarList3::from_ptr(ComPtr(2));
    assert_eq!(t.SetProgressValue(HRESULT(0)), Ok(()));
    assert_eq!(t.SetProgressState(HRESULT(0x80004005)), Err(HRESULT(0x80004005)));
    assert_eq!(t.RegisterTab(HRESULT(0)), Ok(()));
    assert_eq!(t.SetOverlayIcon(HRESULT(0)), Ok(()));
    assert_eq!(t.SetTabActive(HRESULT(0)), Ok(()));
    assert_eq!(t.SetTabOrder(HRESULT(0)), Ok(()));
    assert_eq!(t.SetThumbnailClip(HRESULT(0)), Ok(()));
    assert_eq!(t.SetThumbnailTooltip(HRESULT(0)), Ok(()));
}

#[test]
fn media_control_calls_classify() {
    let m = IMediaControl::from_ptr(ComPtr(3));
    assert_eq!(m.Run(HRESULT(0)), Ok(true));
    assert_eq!(m.Run(HRESULT(1)), Ok(false));
    assert!(m.Run(HRESULT(0x80004005)).is_err());
    assert_eq!(m.Pause(HRESULT(1)), Ok(false));
    assert_eq!(m.Stop(HRESULT(0)), Ok(()));
    assert_eq!(m.StopWhenReady(HRESULT(0)), Ok(true));
    assert_eq!(m.GetState(HRESULT(0), 2), Ok(2));
    assert_eq!(m.RenderFile(HRESULT(0)), Ok(()));
    let d = m.AddSourceFilter(HRESULT(0), ComPtr(12)).unwrap();
    assert_eq!(d.ptr(), ComPtr(12));
}
