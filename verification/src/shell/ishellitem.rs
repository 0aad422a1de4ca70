//! The shell item interface: one item of the shell namespace.

use vstd::prelude::*;
use crate::co::{HRESULT, S_FALSE, S_OK};
use crate::handles::ComPtr;
use crate::results::{ok_to_hrresult, HrResult};

verus! {

/// A shell item object, carried by its interface pointer.
pub struct IShellItem {
    ptr: ComPtr,
}

impl IShellItem {
    /// The underlying interface pointer.
    pub closed spec fn ptr_spec(&self) -> ComPtr {
        self.ptr
    }

    /// Wraps an interface pointer, taking over its reference.
    pub fn from_ptr(ptr: ComPtr) -> (o: Self)
        ensures
            o.ptr_spec() == ptr,
    {
        IShellItem { ptr }
    }

    /// The underlying interface pointer, for further calls.
    pub fn ptr(&self) -> (p: ComPtr)
        ensures
            p == self.ptr_spec(),
    {
        self.ptr
    }
}

/// Methods of the shell item interface: each takes the raw outcome of the
/// corresponding call and classifies it.
pub trait shell_IShellItem: Sized {
    /// Classifies the outcome of binding the item to a handler: on success
    /// the handler's interface pointer, as the call wrote it out, is the
    /// payload.
    fn BindToHandler(&self, hres: HRESULT, handler: ComPtr) -> (r: HrResult<ComPtr>)
        ensures
            hres.0 == S_OK ==> r == HrResult::<ComPtr>::Ok(handler),
            hres.0 != S_OK ==> r == HrResult::<ComPtr>::Err(hres),
    {
        match ok_to_hrresult(hres) {
            Ok(_) => Ok(handler),
            Err(e) => Err(e),
        }
    }

    /// Classifies the outcome of querying the item's attributes: both
    /// success statuses carry the attribute bits the call wrote out — the
    /// false status means only some of the asked-for bits are valid — and
    /// any other status is the failure.
    fn GetAttributes(&self, hres: HRESULT, attrs: u32) -> (r: HrResult<u32>)
        ensures
            hres.0 == S_OK || hres.0 == S_FALSE ==> r == HrResult::<u32>::Ok(attrs),
            hres.0 != S_OK && hres.0 != S_FALSE ==> r == HrResult::<u32>::Err(hres),
    {
        if hres.0 == S_OK || hres.0 == S_FALSE {
            Ok(attrs)
        } else {
            Err(hres)
        }
    }

    /// Classifies the outcome of querying a display name: on success the
    /// name the call produced is the payload.
    fn GetDisplayName(&self, hres: HRESULT, name: String) -> (r: HrResult<String>)
        ensures
            hres.0 == S_OK ==> (r matches Ok(s) && s@ == name@),
            hres.0 != S_OK ==> r == HrResult::<String>::Err(hres),
    {
        match ok_to_hrresult(hres) {
            Ok(_) => Ok(name),
            Err(e) => Err(e),
        }
    }

    /// Classifies the outcome of querying the item's parent: on success the
    /// parent item, carried by the pointer the call wrote out, is the
    /// payload.
    fn GetParent(&self, hres: HRESULT, parent: ComPtr) -> (r: HrResult<IShellItem>)
        ensures
            hres.0 == S_OK ==> (r matches Ok(it) && it.ptr_spec() == parent),
            hres.0 != S_OK ==> r == HrResult::<IShellItem>::Err(hres),
    {
        match ok_to_hrresult(hres) {
            Ok(_) => Ok(IShellItem::from_ptr(parent)),
            Err(e) => Err(e),
        }
    }
}

impl shell_IShellItem for IShellItem {

}

} // verus!
