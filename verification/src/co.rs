//! Typed error codes and the named platform constants the library speaks of.

use vstd::prelude::*;

verus! {

/// `GetLastError` code meaning the call succeeded.
pub const ERROR_SUCCESS: u32 = 0;
/// `GetLastError` code: no more files / entries to enumerate.
pub const ERROR_NO_MORE_FILES: u32 = 18;
/// `GetLastError` code: one of the arguments was bad.
pub const ERROR_BAD_ARGUMENTS: u32 = 160;
/// `GetLastError` code: the operation was cancelled by the user.
pub const ERROR_CANCELLED: u32 = 1223;

/// Status code: the operation succeeded.
pub const S_OK: u32 = 0;
/// Status code: the operation succeeded but reports a false result.
pub const S_FALSE: u32 = 1;

/// The facility bits a last-error code receives when carried inside a
/// status code.
pub const FACILITY_WIN32_BITS: u32 = 0x8007_0000;

/// Static-control message: set the icon.
pub const STM_SETICON: u32 = 0x0170;
/// Static-control message: get the icon.
pub const STM_GETICON: u32 = 0x0171;
/// Static-control message: set the image.
pub const STM_SETIMAGE: u32 = 0x0172;
/// Static-control message: get the image.
pub const STM_GETIMAGE: u32 = 0x0173;

/// Image type code: bitmap.
pub const IMAGE_BITMAP: u32 = 0;
/// Image type code: icon.
pub const IMAGE_ICON: u32 = 1;
/// Image type code: cursor.
pub const IMAGE_CURSOR: u32 = 2;
/// Image type code: enhanced metafile.
pub const IMAGE_ENHMETAFILE: u32 = 3;

/// Window message: a command notification from a child control.
pub const WM_COMMAND: u32 = 0x0111;
/// Window message: non-client teardown, the last message a subclass sees.
pub const WM_NCDESTROY: u32 = 0x0082;
/// Command notification code: a button was clicked.
pub const BN_CLICKED: u16 = 0;

/// Window style: the window is a child.
pub const WS_CHILD: u32 = 0x4000_0000;
/// Window style: the window is initially visible.
pub const WS_VISIBLE: u32 = 0x1000_0000;
/// Window style: the control is a tab stop.
pub const WS_TABSTOP: u32 = 0x0001_0000;
/// Window style: the control starts a group.
pub const WS_GROUP: u32 = 0x0002_0000;
/// Button style: a plain push button.
pub const BS_PUSHBUTTON: u32 = 0;
/// Extended window style: left-aligned, the default.
pub const WS_EX_LEFT: u32 = 0;

/// Resize request code: the window was minimized.
pub const SIZE_MINIMIZED: u32 = 1;

/// Placement flag: keep the current size.
pub const SWP_NOSIZE: u32 = 0x0001;
/// Placement flag: keep the current position.
pub const SWP_NOMOVE: u32 = 0x0002;
/// Placement flag: keep the current stacking order.
pub const SWP_NOZORDER: u32 = 0x0004;

/// The class atom of the built-in dialog window class.
pub const WC_DIALOG: u16 = 0x8002;

/// A last-error code, fetched through the side channel right after a call
/// that signalled failure through a sentinel return value.
#[derive(Clone, Copy, PartialEq, Eq, Structural, Debug, Hash)]
pub struct ERROR(pub u32);

/// A status code as returned directly by status-convention calls: zero is
/// success, anything else carries the failure.
#[derive(Clone, Copy, PartialEq, Eq, Structural, Debug, Hash)]
pub struct HRESULT(pub u32);

/// A shell-execution error code: the distinguished small return values of
/// the shell launch call.
#[derive(Clone, Copy, PartialEq, Eq, Structural, Debug, Hash)]
pub struct SE_ERR(pub u32);

impl ERROR {
    /// Packs the last-error code into the status-code convention.
    pub fn to_hresult(&self) -> (h: HRESULT)
        ensures
            h == HRESULT(FACILITY_WIN32_BITS | (self.0 & 0xFFFF)),
    {
        HRESULT(FACILITY_WIN32_BITS | (self.0 & 0xFFFF))
    }
}

impl HRESULT {
    /// Whether this status code reports success.
    pub open spec fn is_ok(&self) -> bool {
        self.0 == S_OK
    }
}

} // verus!
