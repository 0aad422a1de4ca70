//! Ownership guards over typed handles.
//!
//! A guard owns exactly one valid handle together with the obligation to
//! release it through its family's release call. Guards cannot be copied or
//! cloned: two owners of one obligation would allow a double release. Moving
//! a guard moves the obligation without touching the resource. Leaking
//! (detaching) consumes the guard, hands the raw handle to the caller and
//! with it the obligation, so no automatic release can follow.
//!
//! A guard is created only at an acquisition site that already classified
//! the raw outcome as a success, so a guard's existence proves that the
//! acquisition succeeded.

use vstd::prelude::*;
use crate::co::HRESULT;
use crate::handles::{Handle, HCURSOR, HICON, INVALID_HANDLE_VALUE};

verus! {

/// Guard over a kernel-style handle whose release call is the generic
/// close-handle call. Valid handles of this family are neither null nor the
/// invalid-handle value.
pub struct CloseHandleGuard<H: Handle> {
    handle: H,
}

impl<H: Handle> CloseHandleGuard<H> {
    /// The guarded handle's raw value.
    pub closed spec fn raw_spec(&self) -> usize {
        self.handle.raw_spec()
    }

    /// The guard's invariant: it holds a valid handle of its family.
    pub open spec fn wf(&self) -> bool {
        self.raw_spec() != 0 && self.raw_spec() != INVALID_HANDLE_VALUE
    }

    /// Takes ownership of a handle known valid at the acquisition site.
    pub fn new(handle: H) -> (g: Self)
        requires
            handle.raw_spec() != 0,
            handle.raw_spec() != INVALID_HANDLE_VALUE,
        ensures
            g.raw_spec() == handle.raw_spec(),
            g.wf(),
    {
        CloseHandleGuard { handle }
    }

    /// Read-only access to the handle, for further OS calls; the obligation
    /// stays with the guard.
    pub fn handle(&self) -> (h: H)
        ensures
            h.raw_spec() == self.raw_spec(),
    {
        self.handle
    }

    /// Detaches: consumes the guard and returns the handle, transferring the
    /// release obligation to the caller; no automatic release can follow.
    pub fn leak(self) -> (h: H)
        ensures
            h.raw_spec() == self.raw_spec(),
    {
        self.handle
    }
}

/// Guard over a drawing object whose release call is the delete-object
/// call. Valid handles of this family are non-null.
pub struct DeleteObjectGuard<H: Handle> {
    handle: H,
}

impl<H: Handle> DeleteObjectGuard<H> {
    /// The guarded handle's raw value.
    pub closed spec fn raw_spec(&self) -> usize {
        self.handle.raw_spec()
    }

    /// The guard's invariant: it holds a valid handle of its family.
    pub open spec fn wf(&self) -> bool {
        self.raw_spec() != 0
    }

    /// Takes ownership of a handle known valid at the acquisition site.
    pub fn new(handle: H) -> (g: Self)
        requires
            handle.raw_spec() != 0,
        ensures
            g.raw_spec() == handle.raw_spec(),
            g.wf(),
    {
        DeleteObjectGuard { handle }
    }

    /// Read-only access to the handle, for further OS calls; the obligation
    /// stays with the guard.
    pub fn handle(&self) -> (h: H)
        ensures
            h.raw_spec() == self.raw_spec(),
    {
        self.handle
    }

    /// Detaches: consumes the guard and returns the handle, transferring the
    /// release obligation to the caller; no automatic release can follow.
    pub fn leak(self) -> (h: H)
        ensures
            h.raw_spec() == self.raw_spec(),
    {
        self.handle
    }
}

/// Guard over a cursor, released through the destroy-cursor call.
pub struct DestroyCursorGuard {
    handle: HCURSOR,
}

impl DestroyCursorGuard {
    /// The guarded handle's raw value.
    pub closed spec fn raw_spec(&self) -> usize {
        self.handle.0
    }

    /// The guard's invariant: it holds a valid handle of its family.
    pub open spec fn wf(&self) -> bool {
        self.raw_spec() != 0
    }

    /// Takes ownership of a handle known valid at the acquisition site.
    pub fn new(handle: HCURSOR) -> (g: Self)
        requires
            handle.0 != 0,
        ensures
            g.raw_spec() == handle.0,
            g.wf(),
    {
        DestroyCursorGuard { handle }
    }

    /// Read-only access to the handle, for further OS calls; the obligation
    /// stays with the guard.
    pub fn handle(&self) -> (h: HCURSOR)
        ensures
            h.0 == self.raw_spec(),
    {
        self.handle
    }

    /// Detaches: consumes the guard and returns the handle, transferring the
    /// release obligation to the caller; no automatic release can follow.
    pub fn leak(self) -> (h: HCURSOR)
        ensures
            h.0 == self.raw_spec(),
    {
        self.handle
    }
}

/// Guard over an icon, released through the destroy-icon call.
pub struct DestroyIconGuard {
    handle: HICON,
}

impl DestroyIconGuard {
    /// The guarded handle's raw value.
    pub closed spec fn raw_spec(&self) -> usize {
        self.handle.0
    }

    /// The guard's invariant: it holds a valid handle of its family.
    pub open spec fn wf(&self) -> bool {
        self.raw_spec() != 0
    }

    /// Takes ownership of a handle known valid at the acquisition site.
    pub fn new(handle: HICON) -> (g: Self)
        requires
            handle.0 != 0,
        ensures
            g.raw_spec() == handle.0,
            g.wf(),
    {
        DestroyIconGuard { handle }
    }

    /// Read-only access to the handle, for further OS calls; the obligation
    /// stays with the guard.
    pub fn handle(&self) -> (h: HICON)
        ensures
            h.0 == self.raw_spec(),
    {
        self.handle
    }

    /// Detaches: consumes the guard and returns the handle, transferring the
    /// release obligation to the caller; no automatic release can follow.
    pub fn leak(self) -> (h: HICON)
        ensures
            h.0 == self.raw_spec(),
    {
        self.handle
    }
}

/// Guard for the per-thread OS runtime initialisation: owns the obligation
/// to run the paired uninitialise call at end of scope, and remembers the
/// informational status the initialise call returned.
pub struct CoUninitializeGuard {
    hr: HRESULT,
}

impl CoUninitializeGuard {
    /// The status the guard was constructed with.
    pub closed spec fn hr_spec(&self) -> HRESULT {
        self.hr
    }

    /// Constructs the guard by taking ownership of the informational success
    /// status of the initialise call. Only an acquisition site that saw the
    /// call succeed may construct it.
    pub fn new(hr: HRESULT) -> (g: Self)
        ensures
            g.hr_spec() == hr,
    {
        CoUninitializeGuard { hr }
    }

    /// The informational success status returned by the initialise call.
    pub fn hr(&self) -> (h: HRESULT)
        ensures
            h == self.hr_spec(),
    {
        self.hr
    }
}

} // verus!
