use winsafe::co::{
    ERROR, ERROR_BAD_ARGUMENTS, IMAGE_BITMAP, IMAGE_CURSOR, IMAGE_ENHMETAFILE, IMAGE_ICON,
    STM_GETICON, STM_GETIMAGE, STM_SETICON, STM_SETIMAGE,
};
use winsafe::comctl::{BmpIconCurMeta, GetIcon, GetImage, SetIcon, SetImage};
use winsafe::handles::{HBITMAP, HCURSOR, HDC, HICON};

#[test]
fn get_icon_converts_reply() {
    let m = GetIcon {};
    assert_eq!(m.convert_ret(0), Err(ERROR(ERROR_BAD_ARGUMENTS)));
    assert_eq!(m.convert_ret(55), Ok(HICON(55)));
}

#[test]
fn get_icon_packs_message() {
    let mut m = GetIcon {};
    let wm = m.as_generic_wm();
    assert_eq!(wm.msg_id, STM_GETICON);
    assert_eq!(wm.wparam, 0);
    assert_eq!(wm.lparam, 0);
}

#[test]
fn get_image_converts_by_asked_type() {
    assert_eq!(
        GetImage { img_type: IMAGE_BITMAP }.convert_ret(9),
        Ok(BmpIconCurMeta::Bmp(HBITMAP(9)))
    );
    assert_eq!(
        GetImage { img_type: IMAGE_ICON }.convert_ret(9),
        Ok(BmpIconCurMeta::Icon(HICON(9)))
    );
    assert_eq!(
        GetImage { img_type: IMAGE_CURSOR }.convert_ret(9),
        Ok(BmpIconCurMeta::Cur(HCURSOR(9)))
    );
    assert_eq!(
        GetImage { img_type: IMAGE_ENHMETAFILE }.convert_ret(9),
        Ok(BmpIconCurMeta::Meta(HDC(9)))
    );
    assert_eq!(GetImage { img_type: 77 }.convert_ret(9), Err(ERROR(ERROR_BAD_ARGUMENTS)));
}

#[test]
fn get_image_packs_asked_type() {
    let mut m = GetImage { img_type: IMAGE_CURSOR };
    let wm = m.as_generic_wm();
    assert_eq!(wm.msg_id, STM_GETIMAGE);
    assert_eq!(wm.wparam, IMAGE_CURSOR as usize);
    assert_eq!(wm.lparam, 0);
}

#[test]
fn set_icon_converts_and_packs() {
    let m = SetIcon { icon: HICON(12) };
    assert_eq!(m.convert_ret(0), Err(ERROR(ERROR_BAD_ARGUMENTS)));
    assert_eq!(m.convert_ret(3), Ok(HICON(3)));
    let mut m = SetIcon { icon: HICON(12) };
    let wm = m.as_generic_wm();
    assert_eq!(wm.msg_id, STM_SETICON);
    assert_eq!(wm.wparam, 12);
    assert_eq!(wm.lparam, 0);
}

#[test]
fn set_image_reply_keeps_the_kind() {
    let m = SetImage { image: BmpIconCurMeta::Icon(HICON(5)) };
    assert_eq!(m.convert_ret(0), Err(ERROR(ERROR_BAD_ARGUMENTS)));
    assert_eq!(m.convert_ret(8), Ok(BmpIconCurMeta::Icon(HICON(8))));
    let m = SetImage { image: BmpIconCurMeta::Bmp(HBITMAP(5)) };
    assert_eq!(m.convert_ret(8), Ok(BmpIconCurMeta::Bmp(HBITMAP(8))));
}

#[test]
fn set_image_packs_kind_and_handle() {
    let mut m = SetImage { image: BmpIconCurMeta::Meta(HDC(31)) };
    let wm = m.as_generic_wm();
    assert_eq!(wm.msg_id, STM_SETIMAGE);
    assert_eq!(wm.wparam, IMAGE_ENHMETAFILE as usize);
    assert_eq!(wm.lparam, 31);
}
