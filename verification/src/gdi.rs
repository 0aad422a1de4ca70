//! Drawing-object acquisitions: each classifies the raw outcome of its call
//! and, on success, wraps the new handle in the guard that owns its release.

use vstd::prelude::*;
use crate::co::ERROR;
use crate::guard::{DeleteObjectGuard, DestroyCursorGuard, DestroyIconGuard};
use crate::handles::{Handle, HBITMAP, HCURSOR, HICON, HINSTANCE};
use crate::results::{bool_to_sysresult, SysResult};

verus! {

/// The metrics of a bitmap, as the object query reports them.
#[derive(Clone, Copy, PartialEq, Eq, Structural, Debug)]
pub struct BITMAP {
    /// The width in pixels.
    pub bmWidth: i32,
    /// The height in pixels.
    pub bmHeight: i32,
    /// The bits per pixel.
    pub bmBitsPixel: u16,
}

/// Drawing methods for a bitmap handle.
pub trait gdi_Hbitmap: Handle {
    /// Classifies the outcome of creating a bitmap: a null handle is the
    /// failure carried by the last-error code; any other handle is owned by
    /// the returned guard, which carries the obligation to delete it.
    fn CreateBitmap(raw: usize, last_error: ERROR) -> (r: SysResult<DeleteObjectGuard<HBITMAP>>)
        ensures
            raw == 0 ==> r == SysResult::<DeleteObjectGuard<HBITMAP>>::Err(last_error),
            raw != 0 ==> (r matches Ok(g) && g.raw_spec() == raw && g.wf()),
    {
        if raw == 0 {
            Err(last_error)
        } else {
            Ok(DeleteObjectGuard::new(HBITMAP(raw)))
        }
    }

    /// Classifies the outcome of querying the bitmap's metrics: on success
    /// the metrics the call wrote out are the payload.
    fn GetObject(&self, ret: i32, last_error: ERROR, bmp: BITMAP) -> (r: SysResult<BITMAP>)
        ensures
            ret == 0 ==> r == SysResult::<BITMAP>::Err(last_error),
            ret != 0 ==> r == SysResult::<BITMAP>::Ok(bmp),
    {
        match bool_to_sysresult(ret, last_error) {
            Ok(_) => Ok(bmp),
            Err(e) => Err(e),
        }
    }
}

impl gdi_Hbitmap for HBITMAP {

}

/// Drawing-resource loads from a module instance: each classifies the raw
/// outcome of the image load and, on success, wraps the new handle in the
/// guard of its family.
pub trait gdi_Hinstance: Handle {
    /// Classifies the outcome of loading a bitmap image: a null handle is
    /// the failure carried by the last-error code; any other handle is
    /// owned by the returned guard, which carries the obligation to delete
    /// it.
    fn LoadImageBitmap(&self, raw: usize, last_error: ERROR) -> (r: SysResult<
        DeleteObjectGuard<HBITMAP>,
    >)
        ensures
            raw == 0 ==> r == SysResult::<DeleteObjectGuard<HBITMAP>>::Err(last_error),
            raw != 0 ==> (r matches Ok(g) && g.raw_spec() == raw && g.wf()),
    {
        if raw == 0 {
            Err(last_error)
        } else {
            Ok(DeleteObjectGuard::new(HBITMAP(raw)))
        }
    }

    /// Classifies the outcome of loading a cursor image: a null handle is
    /// the failure carried by the last-error code; any other handle is
    /// owned by the returned guard, which carries the obligation to destroy
    /// it.
    fn LoadImageCursor(&self, raw: usize, last_error: ERROR) -> (r: SysResult<DestroyCursorGuard>)
        ensures
            raw == 0 ==> r == SysResult::<DestroyCursorGuard>::Err(last_error),
            raw != 0 ==> (r matches Ok(g) && g.raw_spec() == raw && g.wf()),
    {
        if raw == 0 {
            Err(last_error)
        } else {
            Ok(DestroyCursorGuard::new(HCURSOR(raw)))
        }
    }

    /// Classifies the outcome of loading an icon image: a null handle is
    /// the failure carried by the last-error code; any other handle is
    /// owned by the returned guard, which carries the obligation to destroy
    /// it.
    fn LoadImageIcon(&self, raw: usize, last_error: ERROR) -> (r: SysResult<DestroyIconGuard>)
        ensures
            raw == 0 ==> r == SysResult::<DestroyIconGuard>::Err(last_error),
            raw != 0 ==> (r matches Ok(g) && g.raw_spec() == raw && g.wf()),
    {
        if raw == 0 {
            Err(last_error)
        } else {
            Ok(DestroyIconGuard::new(HICON(raw)))
        }
    }
}

impl gdi_Hinstance for HINSTANCE {

}

} // verus!
