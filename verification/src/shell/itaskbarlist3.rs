//! The taskbar list interface: per-window taskbar state.

use vstd::prelude::*;
use crate::co::{HRESULT, S_OK};
use crate::handles::ComPtr;
use crate::results::{ok_to_hrresult, HrResult};

verus! {

/// A taskbar list object, carried by its interface pointer.
pub struct ITaskbarList3 {
    ptr: ComPtr,
}

impl ITaskbarList3 {
    /// The underlying interface pointer.
    pub closed spec fn ptr_spec(&self) -> ComPtr {
        self.ptr
    }

    /// Wraps an interface pointer, taking over its reference.
    pub fn from_ptr(ptr: ComPtr) -> (o: Self)
        ensures
            o.ptr_spec() == ptr,
    {
        ITaskbarList3 { ptr }
    }

    /// The underlying interface pointer, for further calls.
    pub fn ptr(&self) -> (p: ComPtr)
        ensures
            p == self.ptr_spec(),
    {
        self.ptr
    }
}

/// Methods of the taskbar list interface: each takes the raw outcome of the
/// corresponding call and classifies it under the status convention.
pub trait shell_ITaskbarList3: Sized {
    /// Classifies the outcome of registering a tab.
    fn RegisterTab(&self, hres: HRESULT) -> (r: HrResult<()>)
        ensures
            hres.0 == S_OK ==> r == HrResult::<()>::Ok(()),
            hres.0 != S_OK ==> r == HrResult::<()>::Err(hres),
    {
        ok_to_hrresult(hres)
    }

    /// Classifies the outcome of setting a window's overlay icon.
    fn SetOverlayIcon(&self, hres: HRESULT) -> (r: HrResult<()>)
        ensures
            hres.0 == S_OK ==> r == HrResult::<()>::Ok(()),
            hres.0 != S_OK ==> r == HrResult::<()>::Err(hres),
    {
        ok_to_hrresult(hres)
    }

    /// Classifies the outcome of setting a window's progress state.
    fn SetProgressState(&self, hres: HRESULT) -> (r: HrResult<()>)
        ensures
            hres.0 == S_OK ==> r == HrResult::<()>::Ok(()),
            hres.0 != S_OK ==> r == HrResult::<()>::Err(hres),
    {
        ok_to_hrresult(hres)
    }

    /// Classifies the outcome of setting a window's progress value.
    fn SetProgressValue(&self, hres: HRESULT) -> (r: HrResult<()>)
        ensures
            hres.0 == S_OK ==> r == HrResult::<()>::Ok(()),
            hres.0 != S_OK ==> r == HrResult::<()>::Err(hres),
    {
        ok_to_hrresult(hres)
    }

    /// Classifies the outcome of marking a tab active.
    fn SetTabActive(&self, hres: HRESULT) -> (r: HrResult<()>)
        ensures
            hres.0 == S_OK ==> r == HrResult::<()>::Ok(()),
            hres.0 != S_OK ==> r == HrResult::<()>::Err(hres),
    {
        ok_to_hrresult(hres)
    }

    /// Classifies the outcome of ordering a tab before another.
    fn SetTabOrder(&self, hres: HRESULT) -> (r: HrResult<()>)
        ensures
            hres.0 == S_OK ==> r == HrResult::<()>::Ok(()),
            hres.0 != S_OK ==> r == HrResult::<()>::Err(hres),
    {
        ok_to_hrresult(hres)
    }

    /// Classifies the outcome of setting a window's thumbnail clip area.
    fn SetThumbnailClip(&self, hres: HRESULT) -> (r: HrResult<()>)
        ensures
            hres.0 == S_OK ==> r == HrResult::<()>::Ok(()),
            hres.0 != S_OK ==> r == HrResult::<()>::Err(hres),
    {
        ok_to_hrresult(hres)
    }

    /// Classifies the outcome of setting a window's thumbnail tooltip.
    fn SetThumbnailTooltip(&self, hres: HRESULT) -> (r: HrResult<()>)
        ensures
            hres.0 == S_OK ==> r == HrResult::<()>::Ok(()),
            hres.0 != S_OK ==> r == HrResult::<()>::Err(hres),
    {
        ok_to_hrresult(hres)
    }
}

impl shell_ITaskbarList3 for ITaskbarList3 {

}

} // verus!
