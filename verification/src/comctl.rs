//! Static-control messages: each message struct packs itself into a generic
//! window message and classifies the raw reply the control sent back.

use vstd::prelude::*;
use crate::co::{
    ERROR, ERROR_BAD_ARGUMENTS, IMAGE_BITMAP, IMAGE_CURSOR, IMAGE_ENHMETAFILE, IMAGE_ICON,
    STM_GETICON, STM_GETIMAGE, STM_SETICON, STM_SETIMAGE,
};
use crate::handles::{HBITMAP, HCURSOR, HDC, HICON};
use crate::msg::WndMsg;
use crate::results::{zero_as_err, SysResult};

verus! {

/// An image a static control can hold, tagged with its kind.
#[derive(Clone, Copy, PartialEq, Eq, Structural, Debug)]
pub enum BmpIconCurMeta {
    /// A bitmap.
    Bmp(HBITMAP),
    /// An icon.
    Icon(HICON),
    /// A cursor.
    Cur(HCURSOR),
    /// An enhanced metafile device context.
    Meta(HDC),
}

impl BmpIconCurMeta {
    /// The image type code of this variant.
    pub open spec fn type_code(&self) -> u32 {
        match *self {
            BmpIconCurMeta::Bmp(_) => IMAGE_BITMAP,
            BmpIconCurMeta::Icon(_) => IMAGE_ICON,
            BmpIconCurMeta::Cur(_) => IMAGE_CURSOR,
            BmpIconCurMeta::Meta(_) => IMAGE_ENHMETAFILE,
        }
    }

    /// The raw handle value inside, whichever variant holds it.
    pub open spec fn raw_spec(&self) -> usize {
        match *self {
            BmpIconCurMeta::Bmp(h) => h.0,
            BmpIconCurMeta::Icon(h) => h.0,
            BmpIconCurMeta::Cur(h) => h.0,
            BmpIconCurMeta::Meta(h) => h.0,
        }
    }

    /// The raw handle value, packed for a message parameter.
    pub fn as_isize(&self) -> (r: isize)
        ensures
            r == self.raw_spec() as isize,
    {
        match *self {
            BmpIconCurMeta::Bmp(h) => h.0 as isize,
            BmpIconCurMeta::Icon(h) => h.0 as isize,
            BmpIconCurMeta::Cur(h) => h.0 as isize,
            BmpIconCurMeta::Meta(h) => h.0 as isize,
        }
    }
}

/// The get-icon message, which has no parameters and replies with the icon
/// handle, zero when the control holds none.
pub struct GetIcon {}

impl GetIcon {
    /// Classifies the raw reply: zero is the bad-arguments failure, anything
    /// else is the icon handle.
    pub fn convert_ret(&self, v: isize) -> (r: SysResult<HICON>)
        ensures
            v == 0 ==> r == SysResult::<HICON>::Err(ERROR(ERROR_BAD_ARGUMENTS)),
            v != 0 ==> r == SysResult::<HICON>::Ok(HICON(v as usize)),
    {
        match zero_as_err(v) {
            Ok(p) => Ok(HICON(p as usize)),
            Err(e) => Err(e),
        }
    }

    /// Packs this message into its generic form.
    pub fn as_generic_wm(&mut self) -> (m: WndMsg)
        ensures
            m == (WndMsg { msg_id: STM_GETICON, wparam: 0, lparam: 0 }),
    {
        WndMsg { msg_id: STM_GETICON, wparam: 0, lparam: 0 }
    }
}

/// The get-image message: asks the control for its image of the given type
/// and replies with the handle.
pub struct GetImage {
    /// Which image type to ask for.
    pub img_type: u32,
}

impl GetImage {
    /// Classifies the raw reply by the type that was asked for; an unknown
    /// type code is the bad-arguments failure.
    pub fn convert_ret(&self, v: isize) -> (r: SysResult<BmpIconCurMeta>)
        ensures
            self.img_type == IMAGE_BITMAP
                ==> r == SysResult::<BmpIconCurMeta>::Ok(
                    BmpIconCurMeta::Bmp(HBITMAP(v as usize))),
            self.img_type == IMAGE_ICON
                ==> r == SysResult::<BmpIconCurMeta>::Ok(BmpIconCurMeta::Icon(HICON(v as usize))),
            self.img_type == IMAGE_CURSOR
                ==> r == SysResult::<BmpIconCurMeta>::Ok(BmpIconCurMeta::Cur(HCURSOR(v as usize))),
            self.img_type == IMAGE_ENHMETAFILE
                ==> r == SysResult::<BmpIconCurMeta>::Ok(BmpIconCurMeta::Meta(HDC(v as usize))),
            self.img_type != IMAGE_BITMAP && self.img_type != IMAGE_ICON
                && self.img_type != IMAGE_CURSOR && self.img_type != IMAGE_ENHMETAFILE
                ==> r == SysResult::<BmpIconCurMeta>::Err(ERROR(ERROR_BAD_ARGUMENTS)),
    {
        if self.img_type == IMAGE_BITMAP {
            Ok(BmpIconCurMeta::Bmp(HBITMAP(v as usize)))
        } else if self.img_type == IMAGE_ICON {
            Ok(BmpIconCurMeta::Icon(HICON(v as usize)))
        } else if self.img_type == IMAGE_CURSOR {
            Ok(BmpIconCurMeta::Cur(HCURSOR(v as usize)))
        } else if self.img_type == IMAGE_ENHMETAFILE {
            Ok(BmpIconCurMeta::Meta(HDC(v as usize)))
        } else {
            Err(ERROR(ERROR_BAD_ARGUMENTS))
        }
    }

    /// Packs this message into its generic form: the type asked for rides in
    /// the first parameter.
    pub fn as_generic_wm(&mut self) -> (m: WndMsg)
        ensures
            m == (WndMsg {
                msg_id: STM_GETIMAGE,
                wparam: old(self).img_type as usize,
                lparam: 0,
            }),
    {
        WndMsg { msg_id: STM_GETIMAGE, wparam: self.img_type as usize, lparam: 0 }
    }
}

/// The set-icon message: hands the control a new icon and replies with the
/// previous one, zero on failure.
pub struct SetIcon {
    /// The icon to set.
    pub icon: HICON,
}

impl SetIcon {
    /// Classifies the raw reply: zero is the bad-arguments failure, anything
    /// else is the previously held icon.
    pub fn convert_ret(&self, v: isize) -> (r: SysResult<HICON>)
        ensures
            v == 0 ==> r == SysResult::<HICON>::Err(ERROR(ERROR_BAD_ARGUMENTS)),
            v != 0 ==> r == SysResult::<HICON>::Ok(HICON(v as usize)),
    {
        match zero_as_err(v) {
            Ok(p) => Ok(HICON(p as usize)),
            Err(e) => Err(e),
        }
    }

    /// Packs this message into its generic form: the icon handle rides in
    /// the first parameter.
    pub fn as_generic_wm(&mut self) -> (m: WndMsg)
        ensures
            m == (WndMsg {
                msg_id: STM_SETICON,
                wparam: old(self).icon.0,
                lparam: 0,
            }),
    {
        WndMsg { msg_id: STM_SETICON, wparam: self.icon.0, lparam: 0 }
    }
}

/// The set-image message: hands the control a new image and replies with the
/// previous one of the same kind, zero on failure.
pub struct SetImage {
    /// The image to set.
    pub image: BmpIconCurMeta,
}

impl SetImage {
    /// Classifies the raw reply: zero is the bad-arguments failure, anything
    /// else is the previously held image, of the same kind as the one set.
    pub fn convert_ret(&self, v: isize) -> (r: SysResult<BmpIconCurMeta>)
        ensures
            v == 0 ==> r == SysResult::<BmpIconCurMeta>::Err(ERROR(ERROR_BAD_ARGUMENTS)),
            v != 0 ==> (r matches Ok(img) && img.type_code() == self.image.type_code()
                && img.raw_spec() == v as usize),
    {
        if v == 0 {
            Err(ERROR(ERROR_BAD_ARGUMENTS))
        } else {
            match self.image {
                BmpIconCurMeta::Bmp(_) => Ok(BmpIconCurMeta::Bmp(HBITMAP(v as usize))),
                BmpIconCurMeta::Icon(_) => Ok(BmpIconCurMeta::Icon(HICON(v as usize))),
                BmpIconCurMeta::Cur(_) => Ok(BmpIconCurMeta::Cur(HCURSOR(v as usize))),
                BmpIconCurMeta::Meta(_) => Ok(BmpIconCurMeta::Meta(HDC(v as usize))),
            }
        }
    }

    /// Packs this message into its generic form: the image type code rides
    /// in the first parameter, the handle in the second.
    pub fn as_generic_wm(&mut self) -> (m: WndMsg)
        ensures
            m == (WndMsg {
                msg_id: STM_SETIMAGE,
                wparam: old(self).image.type_code() as usize,
                lparam: old(self).image.raw_spec() as isize,
            }),
    {
        let wparam_code: u32 = match self.image {
            BmpIconCurMeta::Bmp(_) => IMAGE_BITMAP,
            BmpIconCurMeta::Icon(_) => IMAGE_ICON,
            BmpIconCurMeta::Cur(_) => IMAGE_CURSOR,
            BmpIconCurMeta::Meta(_) => IMAGE_ENHMETAFILE,
        };
        WndMsg {
            msg_id: STM_SETIMAGE,
            wparam: wparam_code as usize,
            lparam: self.image.as_isize(),
        }
    }
}

} // verus!
