//! Window-side calls: resource loads from a module instance, dialog runs,
//! window text retrieval, and the user-object setting.

use vstd::prelude::*;
use crate::co::{ERROR, ERROR_SUCCESS};
use crate::guard::{DestroyCursorGuard, DestroyIconGuard};
use crate::handles::{Handle, HACCEL, HCURSOR, HICON, HINSTANCE, HMENU, HPROCESS, HWND};
use crate::results::{bool_to_sysresult, ptr_to_sysresult, SysResult};

verus! {

/// A registered window class atom.
#[derive(Clone, Copy, PartialEq, Eq, Structural, Debug)]
pub struct ATOM(pub u16);

impl HWND {
    /// Classifies the outcome of querying the window text's length: the
    /// last error is cleared before the call, so a zero return with a clear
    /// last error is a true zero length, a zero return with a set last error is
    /// that failure, and anything else is the length.
    pub fn GetWindowTextLength(self, ret: i32, last_error: ERROR) -> (r: SysResult<i32>)
        ensures
            ret == 0 && last_error == ERROR(ERROR_SUCCESS) ==> r == SysResult::<i32>::Ok(0),
            ret == 0 && last_error != ERROR(ERROR_SUCCESS) ==> r == SysResult::<i32>::Err(
                last_error),
            ret != 0 ==> r == SysResult::<i32>::Ok(ret),
    {
        if ret == 0 {
            if last_error == ERROR(ERROR_SUCCESS) {
                Ok(0)
            } else {
                Err(last_error)
            }
        } else {
            Ok(ret)
        }
    }

    /// Classifies the full window-text retrieval: a window of zero reported
    /// length has the empty text; otherwise a zero copy outcome with a
    /// clear last error also yields the empty text, a zero copy outcome
    /// with a set last error is that failure, and a non-zero copy outcome
    /// yields the copied text.
    pub fn GetWindowTextStr(self, len: i32, copy_ret: i32, copy_last_error: ERROR, text: String)
        -> (r: SysResult<String>)
        ensures
            len == 0 ==> (r matches Ok(s) && s@.len() == 0),
            len != 0 && copy_ret == 0 && copy_last_error == ERROR(ERROR_SUCCESS) ==> (r matches Ok(
                s,
            ) && s@.len() == 0),
            len != 0 && copy_ret == 0 && copy_last_error != ERROR(ERROR_SUCCESS) ==> r
                == SysResult::<String>::Err(copy_last_error),
            len != 0 && copy_ret != 0 ==> (r matches Ok(s) && s@ == text@),
    {
        if len == 0 {
            Ok(String::new())
        } else if copy_ret == 0 {
            if copy_last_error == ERROR(ERROR_SUCCESS) {
                Ok(String::new())
            } else {
                Err(copy_last_error)
            }
        } else {
            Ok(text)
        }
    }
}

/// Resource loads and dialog runs from a module instance: each classifies
/// the raw outcome of its call.
pub trait user_Hinstance: Handle {
    /// Classifies the outcome of creating a modeless dialog: a null handle
    /// is the failure carried by the last-error code, anything else is the
    /// dialog's window handle.
    fn CreateDialogParam(&self, raw: usize, last_error: ERROR) -> (r: SysResult<HWND>)
        ensures
            raw == 0 ==> r == SysResult::<HWND>::Err(last_error),
            raw != 0 ==> r == SysResult::<HWND>::Ok(HWND(raw)),
    {
        match ptr_to_sysresult(raw, last_error) {
            Ok(p) => Ok(HWND(p)),
            Err(e) => Err(e),
        }
    }

    /// Classifies the outcome of running a modal dialog from an in-memory
    /// template: the distinguished minus-one return is the failure carried
    /// by the last-error code, anything else is the dialog's result value.
    fn DialogBoxIndirectParam(&self, ret: isize, last_error: ERROR) -> (r: SysResult<isize>)
        ensures
            ret == -1 ==> r == SysResult::<isize>::Err(last_error),
            ret != -1 ==> r == SysResult::<isize>::Ok(ret),
    {
        if ret == -1 {
            Err(last_error)
        } else {
            Ok(ret)
        }
    }

    /// Classifies the outcome of running a modal dialog from a resource:
    /// the distinguished minus-one return is the failure carried by the
    /// last-error code, anything else is the dialog's result value.
    fn DialogBoxParam(&self, ret: isize, last_error: ERROR) -> (r: SysResult<isize>)
        ensures
            ret == -1 ==> r == SysResult::<isize>::Err(last_error),
            ret != -1 ==> r == SysResult::<isize>::Ok(ret),
    {
        if ret == -1 {
            Err(last_error)
        } else {
            Ok(ret)
        }
    }

    /// Classifies the outcome of querying a window class's information: a
    /// zero return is the failure carried by the last-error code, anything
    /// else is the class atom.
    fn GetClassInfoEx(&self, ret: i32, last_error: ERROR) -> (r: SysResult<ATOM>)
        ensures
            ret == 0 ==> r == SysResult::<ATOM>::Err(last_error),
            ret != 0 ==> r == SysResult::<ATOM>::Ok(ATOM(ret as u16)),
    {
        if ret == 0 {
            Err(last_error)
        } else {
            Ok(ATOM(ret as u16))
        }
    }

    /// Classifies the outcome of loading an accelerator table: a null
    /// handle is the failure carried by the last-error code.
    fn LoadAccelerators(&self, raw: usize, last_error: ERROR) -> (r: SysResult<HACCEL>)
        ensures
            raw == 0 ==> r == SysResult::<HACCEL>::Err(last_error),
            raw != 0 ==> r == SysResult::<HACCEL>::Ok(HACCEL(raw)),
    {
        match ptr_to_sysresult(raw, last_error) {
            Ok(p) => Ok(HACCEL(p)),
            Err(e) => Err(e),
        }
    }

    /// Classifies the outcome of loading a cursor: a null handle is the
    /// failure carried by the last-error code; any other handle is owned by
    /// the returned guard, which carries the obligation to destroy it.
    fn LoadCursor(&self, raw: usize, last_error: ERROR) -> (r: SysResult<DestroyCursorGuard>)
        ensures
            raw == 0 ==> r == SysResult::<DestroyCursorGuard>::Err(last_error),
            raw != 0 ==> (r matches Ok(g) && g.raw_spec() == raw && g.wf()),
    {
        if raw == 0 {
            Err(last_error)
        } else {
            Ok(DestroyCursorGuard::new(HCURSOR(raw)))
        }
    }

    /// Classifies the outcome of loading an icon: a null handle is the
    /// failure carried by the last-error code; any other handle is owned by
    /// the returned guard, which carries the obligation to destroy it.
    fn LoadIcon(&self, raw: usize, last_error: ERROR) -> (r: SysResult<DestroyIconGuard>)
        ensures
            raw == 0 ==> r == SysResult::<DestroyIconGuard>::Err(last_error),
            raw != 0 ==> (r matches Ok(g) && g.raw_spec() == raw && g.wf()),
    {
        if raw == 0 {
            Err(last_error)
        } else {
            Ok(DestroyIconGuard::new(HICON(raw)))
        }
    }

    /// Classifies the outcome of loading a menu: a null handle is the
    /// failure carried by the last-error code.
    fn LoadMenu(&self, raw: usize, last_error: ERROR) -> (r: SysResult<HMENU>)
        ensures
            raw == 0 ==> r == SysResult::<HMENU>::Err(last_error),
            raw != 0 ==> r == SysResult::<HMENU>::Ok(HMENU(raw)),
    {
        match ptr_to_sysresult(raw, last_error) {
            Ok(p) => Ok(HMENU(p)),
            Err(e) => Err(e),
        }
    }

    /// Classifies the outcome of loading a string resource: a zero length
    /// is the failure carried by the last-error code, anything else yields
    /// the resolved text.
    fn LoadString(&self, len: i32, last_error: ERROR, text: String) -> (r: SysResult<String>)
        ensures
            len == 0 ==> r == SysResult::<String>::Err(last_error),
            len != 0 ==> (r matches Ok(s) && s@ == text@),
    {
        if len == 0 {
            Err(last_error)
        } else {
            Ok(text)
        }
    }
}

impl user_Hinstance for HINSTANCE {

}

/// Window-side methods for a process handle.
pub trait user_Hprocess: Handle {
    /// Classifies the outcome of setting a user-object property on the
    /// process: zero is the failure carried by the last-error code.
    fn SetUserObjectInformation(&self, ret: i32, last_error: ERROR) -> (r: SysResult<()>)
        ensures
            ret == 0 ==> r == SysResult::<()>::Err(last_error),
            ret != 0 ==> r == SysResult::<()>::Ok(()),
    {
        bool_to_sysresult(ret, last_error)
    }
}

impl user_Hprocess for HPROCESS {

}

} // verus!
