//! The modal window interface: showing a modal dialog.

use vstd::prelude::*;
use crate::co::{ERROR_CANCELLED, FACILITY_WIN32_BITS, HRESULT, S_OK};
use crate::handles::ComPtr;
use crate::results::HrResult;

verus! {

/// A modal window object, carried by its interface pointer.
pub struct IModalWindow {
    ptr: ComPtr,
}

impl IModalWindow {
    /// The underlying interface pointer.
    pub closed spec fn ptr_spec(&self) -> ComPtr {
        self.ptr
    }

    /// Wraps an interface pointer, taking over its reference.
    pub fn from_ptr(ptr: ComPtr) -> (o: Self)
        ensures
            o.ptr_spec() == ptr,
    {
        IModalWindow { ptr }
    }

    /// The underlying interface pointer, for further calls.
    pub fn ptr(&self) -> (p: ComPtr)
        ensures
            p == self.ptr_spec(),
    {
        self.ptr
    }
}

/// Methods of the modal window interface.
pub trait shell_IModalWindow: Sized {
    /// Classifies the outcome of showing the dialog: the success status
    /// means the user confirmed, the carried user-cancelled code means they
    /// cancelled, and any other status is the failure.
    fn Show(&self, ret: u32) -> (r: HrResult<bool>)
        ensures
            ret == S_OK ==> r == HrResult::<bool>::Ok(true),
            ret == (FACILITY_WIN32_BITS | (ERROR_CANCELLED & 0xFFFF)) ==> r == HrResult::<bool>::Ok(
                false),
            ret != S_OK && ret != (FACILITY_WIN32_BITS | (ERROR_CANCELLED & 0xFFFF)) ==> r
                == HrResult::<bool>::Err(HRESULT(ret)),
    {
        proof {
            assert((0x8007_0000u32 | (1223u32 & 0xFFFF)) == 0x800704C7u32) by (bit_vector);
        }
        if ret == S_OK {
            Ok(true)
        } else if ret == (FACILITY_WIN32_BITS | (ERROR_CANCELLED & 0xFFFF)) {
            Ok(false)
        } else {
            Err(HRESULT(ret))
        }
    }
}

impl shell_IModalWindow for IModalWindow {

}

} // verus!
