//! The media control interface: running, pausing and stopping a filter
//! graph.

use vstd::prelude::*;
use crate::co::{HRESULT, S_FALSE, S_OK};
use crate::handles::ComPtr;
use crate::results::{ok_to_hrresult, okfalse_to_hrresult, HrResult};

verus! {

/// A dispatch object, carried by its interface pointer.
pub struct IDispatch {
    ptr: ComPtr,
}

impl IDispatch {
    /// The underlying interface pointer.
    pub closed spec fn ptr_spec(&self) -> ComPtr {
        self.ptr
    }

    /// Wraps an interface pointer, taking over its reference.
    pub fn from_ptr(ptr: ComPtr) -> (o: Self)
        ensures
            o.ptr_spec() == ptr,
    {
        IDispatch { ptr }
    }

    /// The underlying interface pointer, for further calls.
    pub fn ptr(&self) -> (p: ComPtr)
        ensures
            p == self.ptr_spec(),
    {
        self.ptr
    }
}

/// A media control object, carried by its interface pointer.
pub struct IMediaControl {
    ptr: ComPtr,
}

impl IMediaControl {
    /// The underlying interface pointer.
    pub closed spec fn ptr_spec(&self) -> ComPtr {
        self.ptr
    }

    /// Wraps an interface pointer, taking over its reference.
    pub fn from_ptr(ptr: ComPtr) -> (o: Self)
        ensures
            o.ptr_spec() == ptr,
    {
        IMediaControl { ptr }
    }

    /// The underlying interface pointer, for further calls.
    pub fn ptr(&self) -> (p: ComPtr)
        ensures
            p == self.ptr_spec(),
    {
        self.ptr
    }
}

/// Methods of the media control interface: each takes the raw outcome of
/// the corresponding call and classifies it. The calls that may complete
/// asynchronously report the false status for a transition still in
/// progress.
pub trait dshow_IMediaControl: Sized {
    /// Classifies the outcome of adding a source filter: on success the
    /// filter's dispatch object, carried by the pointer the call wrote out,
    /// is the payload.
    fn AddSourceFilter(&self, hres: HRESULT, filter: ComPtr) -> (r: HrResult<IDispatch>)
        ensures
            hres.0 == S_OK ==> (r matches Ok(d) && d.ptr_spec() == filter),
            hres.0 != S_OK ==> r == HrResult::<IDispatch>::Err(hres),
    {
        match ok_to_hrresult(hres) {
            Ok(_) => Ok(IDispatch::from_ptr(filter)),
            Err(e) => Err(e),
        }
    }

    /// Classifies the outcome of querying the graph's state: on success the
    /// state code the call wrote out is the payload.
    fn GetState(&self, hres: HRESULT, state: u32) -> (r: HrResult<u32>)
        ensures
            hres.0 == S_OK ==> r == HrResult::<u32>::Ok(state),
            hres.0 != S_OK ==> r == HrResult::<u32>::Err(hres),
    {
        match ok_to_hrresult(hres) {
            Ok(_) => Ok(state),
            Err(e) => Err(e),
        }
    }

    /// Classifies the outcome of pausing the graph: true when the pause
    /// completed, false when it is still in progress.
    fn Pause(&self, hres: HRESULT) -> (r: HrResult<bool>)
        ensures
            hres.0 == S_OK ==> r == HrResult::<bool>::Ok(true),
            hres.0 == S_FALSE ==> r == HrResult::<bool>::Ok(false),
            hres.0 != S_OK && hres.0 != S_FALSE ==> r == HrResult::<bool>::Err(hres),
    {
        okfalse_to_hrresult(hres)
    }

    /// Classifies the outcome of building a playback graph for a file.
    fn RenderFile(&self, hres: HRESULT) -> (r: HrResult<()>)
        ensures
            hres.0 == S_OK ==> r == HrResult::<()>::Ok(()),
            hres.0 != S_OK ==> r == HrResult::<()>::Err(hres),
    {
        ok_to_hrresult(hres)
    }

    /// Classifies the outcome of running the graph: true when the
    /// transition completed, false when it is still in progress.
    fn Run(&self, hres: HRESULT) -> (r: HrResult<bool>)
        ensures
            hres.0 == S_OK ==> r == HrResult::<bool>::Ok(true),
            hres.0 == S_FALSE ==> r == HrResult::<bool>::Ok(false),
            hres.0 != S_OK && hres.0 != S_FALSE ==> r == HrResult::<bool>::Err(hres),
    {
        okfalse_to_hrresult(hres)
    }

    /// Classifies the outcome of stopping the graph.
    fn Stop(&self, hres: HRESULT) -> (r: HrResult<()>)
        ensures
            hres.0 == S_OK ==> r == HrResult::<()>::Ok(()),
            hres.0 != S_OK ==> r == HrResult::<()>::Err(hres),
    {
        ok_to_hrresult(hres)
    }

    /// Classifies the outcome of asking the graph to stop once ready: true
    /// when the stop completed, false when it is still in progress.
    fn StopWhenReady(&self, hres: HRESULT) -> (r: HrResult<bool>)
        ensures
            hres.0 == S_OK ==> r == HrResult::<bool>::Ok(true),
            hres.0 == S_FALSE ==> r == HrResult::<bool>::Ok(false),
            hres.0 != S_OK && hres.0 != S_FALSE ==> r == HrResult::<bool>::Err(hres),
    {
        okfalse_to_hrresult(hres)
    }
}

impl dshow_IMediaControl for IMediaControl {

}

} // verus!
