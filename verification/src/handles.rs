//! Typed handle values.
//!
//! A raw handle is an opaque value issued by the OS, meaningless without the
//! paired release operation of its resource family. Each family gets its own
//! type, so a handle can never be passed to another family's calls. Handle
//! values are plain copies with no ownership: ownership of the release
//! obligation lives in the guard types.

use vstd::prelude::*;

verus! {

/// The distinguished invalid-handle value some kernel calls return on
/// failure, distinct from the null value.
pub const INVALID_HANDLE_VALUE: usize = usize::MAX;

/// Common surface of every typed handle: its raw value, and the null test.
pub trait Handle: Sized + Copy {
    /// The raw value the OS issued.
    spec fn raw_spec(&self) -> usize;

    /// Wraps a raw value in this handle type.
    fn from_raw(raw: usize) -> (h: Self)
        ensures
            h.raw_spec() == raw,
    ;

    /// The raw value, for handing back into OS calls.
    fn as_raw(&self) -> (r: usize)
        ensures
            r == self.raw_spec(),
    ;

    /// Whether this is the null handle.
    fn is_null(&self) -> (r: bool)
        ensures
            r == (self.raw_spec() == 0),
    ;
}

/// Handle to a window.
#[derive(Clone, Copy, PartialEq, Eq, Structural, Debug, Hash)]
pub struct HWND(pub usize);

/// Handle to a bitmap.
#[derive(Clone, Copy, PartialEq, Eq, Structural, Debug, Hash)]
pub struct HBITMAP(pub usize);

/// Handle to an icon.
#[derive(Clone, Copy, PartialEq, Eq, Structural, Debug, Hash)]
pub struct HICON(pub usize);

/// Handle to a cursor.
#[derive(Clone, Copy, PartialEq, Eq, Structural, Debug, Hash)]
pub struct HCURSOR(pub usize);

/// Handle to a device context.
#[derive(Clone, Copy, PartialEq, Eq, Structural, Debug, Hash)]
pub struct HDC(pub usize);

/// Handle to a loaded module instance.
#[derive(Clone, Copy, PartialEq, Eq, Structural, Debug, Hash)]
pub struct HINSTANCE(pub usize);

/// Handle to a menu.
#[derive(Clone, Copy, PartialEq, Eq, Structural, Debug, Hash)]
pub struct HMENU(pub usize);

/// Handle to an accelerator table.
#[derive(Clone, Copy, PartialEq, Eq, Structural, Debug, Hash)]
pub struct HACCEL(pub usize);

/// Handle to a process.
#[derive(Clone, Copy, PartialEq, Eq, Structural, Debug, Hash)]
pub struct HPROCESS(pub usize);

/// Handle to a process-list snapshot.
#[derive(Clone, Copy, PartialEq, Eq, Structural, Debug, Hash)]
pub struct HPROCESSLIST(pub usize);

/// Handle to a standard console device.
#[derive(Clone, Copy, PartialEq, Eq, Structural, Debug, Hash)]
pub struct HSTD(pub usize);

/// A raw interface pointer to a reference-counted OS object, carried as an
/// opaque value.
#[derive(Clone, Copy, PartialEq, Eq, Structural, Debug, Hash)]
pub struct ComPtr(pub usize);

impl Handle for HWND {
    open spec fn raw_spec(&self) -> usize { self.0 }

    fn from_raw(raw: usize) -> (h: Self) { HWND(raw) }

    fn as_raw(&self) -> (r: usize) { self.0 }

    fn is_null(&self) -> (r: bool) { self.0 == 0 }
}

impl Handle for HBITMAP {
    open spec fn raw_spec(&self) -> usize { self.0 }

    fn from_raw(raw: usize) -> (h: Self) { HBITMAP(raw) }

    fn as_raw(&self) -> (r: usize) { self.0 }

    fn is_null(&self) -> (r: bool) { self.0 == 0 }
}

impl Handle for HICON {
    open spec fn raw_spec(&self) -> usize { self.0 }

    fn from_raw(raw: usize) -> (h: Self) { HICON(raw) }

    fn as_raw(&self) -> (r: usize) { self.0 }

    fn is_null(&self) -> (r: bool) { self.0 == 0 }
}

impl Handle for HCURSOR {
    open spec fn raw_spec(&self) -> usize { self.0 }

    fn from_raw(raw: usize) -> (h: Self) { HCURSOR(raw) }

    fn as_raw(&self) -> (r: usize) { self.0 }

    fn is_null(&self) -> (r: bool) { self.0 == 0 }
}

impl Handle for HDC {
    open spec fn raw_spec(&self) -> usize { self.0 }

    fn from_raw(raw: usize) -> (h: Self) { HDC(raw) }

    fn as_raw(&self) -> (r: usize) { self.0 }

    fn is_null(&self) -> (r: bool) { self.0 == 0 }
}

impl Handle for HINSTANCE {
    open spec fn raw_spec(&self) -> usize { self.0 }

    fn from_raw(raw: usize) -> (h: Self) { HINSTANCE(raw) }

    fn as_raw(&self) -> (r: usize) { self.0 }

    fn is_null(&self) -> (r: bool) { self.0 == 0 }
}

impl Handle for HMENU {
    open spec fn raw_spec(&self) -> usize { self.0 }

    fn from_raw(raw: usize) -> (h: Self) { HMENU(raw) }

    fn as_raw(&self) -> (r: usize) { self.0 }

    fn is_null(&self) -> (r: bool) { self.0 == 0 }
}

impl Handle for HACCEL {
    open spec fn raw_spec(&self) -> usize { self.0 }

    fn from_raw(raw: usize) -> (h: Self) { HACCEL(raw) }

    fn as_raw(&self) -> (r: usize) { self.0 }

    fn is_null(&self) -> (r: bool) { self.0 == 0 }
}

impl Handle for HPROCESS {
    open spec fn raw_spec(&self) -> usize { self.0 }

    fn from_raw(raw: usize) -> (h: Self) { HPROCESS(raw) }

    fn as_raw(&self) -> (r: usize) { self.0 }

    fn is_null(&self) -> (r: bool) { self.0 == 0 }
}

impl Handle for HPROCESSLIST {
    open spec fn raw_spec(&self) -> usize { self.0 }

    fn from_raw(raw: usize) -> (h: Self) { HPROCESSLIST(raw) }

    fn as_raw(&self) -> (r: usize) { self.0 }

    fn is_null(&self) -> (r: bool) { self.0 == 0 }
}

impl Handle for HSTD {
    open spec fn raw_spec(&self) -> usize { self.0 }

    fn from_raw(raw: usize) -> (h: Self) { HSTD(raw) }

    fn as_raw(&self) -> (r: usize) { self.0 }

    fn is_null(&self) -> (r: bool) { self.0 == 0 }
}

} // verus!
