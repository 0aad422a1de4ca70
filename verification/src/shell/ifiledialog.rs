//! The file dialog interface: the common open/save dialog object.

use vstd::prelude::*;
use crate::co::{HRESULT, S_OK};
use crate::handles::ComPtr;
use crate::results::{ok_to_hrresult, HrResult};
use crate::shell::imodalwindow::shell_IModalWindow;
use crate::shell::ishellitem::IShellItem;

verus! {

/// A file dialog object, carried by its interface pointer.
pub struct IFileDialog {
    ptr: ComPtr,
}

impl IFileDialog {
    /// The underlying interface pointer.
    pub closed spec fn ptr_spec(&self) -> ComPtr {
        self.ptr
    }

    /// Wraps an interface pointer, taking over its reference.
    pub fn from_ptr(ptr: ComPtr) -> (o: Self)
        ensures
            o.ptr_spec() == ptr,
    {
        IFileDialog { ptr }
    }

    /// The underlying interface pointer, for further calls.
    pub fn ptr(&self) -> (p: ComPtr)
        ensures
            p == self.ptr_spec(),
    {
        self.ptr
    }
}

/// Methods of the file dialog interface: each takes the raw outcome of the
/// corresponding call and classifies it under the status convention.
pub trait shell_IFileDialog: shell_IModalWindow {
    /// Classifies the outcome of adding a place to the dialog's list.
    fn AddPlace(&self, hres: HRESULT) -> (r: HrResult<()>)
        ensures
            hres.0 == S_OK ==> r == HrResult::<()>::Ok(()),
            hres.0 != S_OK ==> r == HrResult::<()>::Err(hres),
    {
        ok_to_hrresult(hres)
    }

    /// Classifies the outcome of clearing the dialog's client data.
    fn ClearClientData(&self, hres: HRESULT) -> (r: HrResult<()>)
        ensures
            hres.0 == S_OK ==> r == HrResult::<()>::Ok(()),
            hres.0 != S_OK ==> r == HrResult::<()>::Err(hres),
    {
        ok_to_hrresult(hres)
    }

    /// Classifies the outcome of closing the dialog.
    fn Close(&self, hres: HRESULT) -> (r: HrResult<()>)
        ensures
            hres.0 == S_OK ==> r == HrResult::<()>::Ok(()),
            hres.0 != S_OK ==> r == HrResult::<()>::Err(hres),
    {
        ok_to_hrresult(hres)
    }

    /// Classifies the outcome of querying the current selection: on success
    /// the item, carried by the pointer the call wrote out, is the payload.
    fn GetCurrentSelection(&self, hres: HRESULT, item: ComPtr) -> (r: HrResult<IShellItem>)
        ensures
            hres.0 == S_OK ==> (r matches Ok(it) && it.ptr_spec() == item),
            hres.0 != S_OK ==> r == HrResult::<IShellItem>::Err(hres),
    {
        match ok_to_hrresult(hres) {
            Ok(_) => Ok(IShellItem::from_ptr(item)),
            Err(e) => Err(e),
        }
    }

    /// Classifies the outcome of querying the typed file name: on success
    /// the name the call produced is the payload.
    fn GetFileName(&self, hres: HRESULT, name: String) -> (r: HrResult<String>)
        ensures
            hres.0 == S_OK ==> (r matches Ok(s) && s@ == name@),
            hres.0 != S_OK ==> r == HrResult::<String>::Err(hres),
    {
        match ok_to_hrresult(hres) {
            Ok(_) => Ok(name),
            Err(e) => Err(e),
        }
    }

    /// Classifies the outcome of querying the selected file type: on
    /// success the one-based index the call wrote out is the payload.
    fn GetFileTypeIndex(&self, hres: HRESULT, index: u32) -> (r: HrResult<u32>)
        ensures
            hres.0 == S_OK ==> r == HrResult::<u32>::Ok(index),
            hres.0 != S_OK ==> r == HrResult::<u32>::Err(hres),
    {
        match ok_to_hrresult(hres) {
            Ok(_) => Ok(index),
            Err(e) => Err(e),
        }
    }

    /// Classifies the outcome of querying the current folder: on success
    /// the folder item, carried by the pointer the call wrote out, is the
    /// payload.
    fn GetFolder(&self, hres: HRESULT, folder: ComPtr) -> (r: HrResult<IShellItem>)
        ensures
            hres.0 == S_OK ==> (r matches Ok(it) && it.ptr_spec() == folder),
            hres.0 != S_OK ==> r == HrResult::<IShellItem>::Err(hres),
    {
        match ok_to_hrresult(hres) {
            Ok(_) => Ok(IShellItem::from_ptr(folder)),
            Err(e) => Err(e),
        }
    }

    /// Classifies the outcome of querying the dialog's option bits: on
    /// success the bits the call wrote out are the payload.
    fn GetOptions(&self, hres: HRESULT, opts: u32) -> (r: HrResult<u32>)
        ensures
            hres.0 == S_OK ==> r == HrResult::<u32>::Ok(opts),
            hres.0 != S_OK ==> r == HrResult::<u32>::Err(hres),
    {
        match ok_to_hrresult(hres) {
            Ok(_) => Ok(opts),
            Err(e) => Err(e),
        }
    }

    /// Classifies the outcome of querying the dialog's result: on success
    /// the chosen item, carried by the pointer the call wrote out, is the
    /// payload.
    fn GetResult(&self, hres: HRESULT, item: ComPtr) -> (r: HrResult<IShellItem>)
        ensures
            hres.0 == S_OK ==> (r matches Ok(it) && it.ptr_spec() == item),
            hres.0 != S_OK ==> r == HrResult::<IShellItem>::Err(hres),
    {
        match ok_to_hrresult(hres) {
            Ok(_) => Ok(IShellItem::from_ptr(item)),
            Err(e) => Err(e),
        }
    }

    /// Classifies the outcome of setting the dialog's client identifier.
    fn SetClientGuid(&self, hres: HRESULT) -> (r: HrResult<()>)
        ensures
            hres.0 == S_OK ==> r == HrResult::<()>::Ok(()),
            hres.0 != S_OK ==> r == HrResult::<()>::Err(hres),
    {
        ok_to_hrresult(hres)
    }

    /// Classifies the outcome of setting the default file extension.
    fn SetDefaultExtension(&self, hres: HRESULT) -> (r: HrResult<()>)
        ensures
            hres.0 == S_OK ==> r == HrResult::<()>::Ok(()),
            hres.0 != S_OK ==> r == HrResult::<()>::Err(hres),
    {
        ok_to_hrresult(hres)
    }

    /// Classifies the outcome of setting the default folder.
    fn SetDefaultFolder(&self, hres: HRESULT) -> (r: HrResult<()>)
        ensures
            hres.0 == S_OK ==> r == HrResult::<()>::Ok(()),
            hres.0 != S_OK ==> r == HrResult::<()>::Err(hres),
    {
        ok_to_hrresult(hres)
    }

    /// Classifies the outcome of pre-filling the file name field.
    fn SetFileName(&self, hres: HRESULT) -> (r: HrResult<()>)
        ensures
            hres.0 == S_OK ==> r == HrResult::<()>::Ok(()),
            hres.0 != S_OK ==> r == HrResult::<()>::Err(hres),
    {
        ok_to_hrresult(hres)
    }

    /// Classifies the outcome of setting the file name field's label.
    fn SetFileNameLabel(&self, hres: HRESULT) -> (r: HrResult<()>)
        ensures
            hres.0 == S_OK ==> r == HrResult::<()>::Ok(()),
            hres.0 != S_OK ==> r == HrResult::<()>::Err(hres),
    {
        ok_to_hrresult(hres)
    }

    /// Classifies the outcome of selecting a file type by its one-based
    /// index.
    fn SetFileTypeIndex(&self, hres: HRESULT) -> (r: HrResult<()>)
        ensures
            hres.0 == S_OK ==> r == HrResult::<()>::Ok(()),
            hres.0 != S_OK ==> r == HrResult::<()>::Err(hres),
    {
        ok_to_hrresult(hres)
    }

    /// Classifies the outcome of handing the dialog its file type filters.
    fn SetFileTypes(&self, hres: HRESULT) -> (r: HrResult<()>)
        ensures
            hres.0 == S_OK ==> r == HrResult::<()>::Ok(()),
            hres.0 != S_OK ==> r == HrResult::<()>::Err(hres),
    {
        ok_to_hrresult(hres)
    }

    /// Classifies the outcome of setting the folder the dialog shows.
    fn SetFolder(&self, hres: HRESULT) -> (r: HrResult<()>)
        ensures
            hres.0 == S_OK ==> r == HrResult::<()>::Ok(()),
            hres.0 != S_OK ==> r == HrResult::<()>::Err(hres),
    {
        ok_to_hrresult(hres)
    }

    /// Classifies the outcome of setting the confirm button's label.
    fn SetOkButtonLabel(&self, hres: HRESULT) -> (r: HrResult<()>)
        ensures
            hres.0 == S_OK ==> r == HrResult::<()>::Ok(()),
            hres.0 != S_OK ==> r == HrResult::<()>::Err(hres),
    {
        ok_to_hrresult(hres)
    }

    /// Classifies the outcome of setting the dialog's option bits.
    fn SetOptions(&self, hres: HRESULT) -> (r: HrResult<()>)
        ensures
            hres.0 == S_OK ==> r == HrResult::<()>::Ok(()),
            hres.0 != S_OK ==> r == HrResult::<()>::Err(hres),
    {
        ok_to_hrresult(hres)
    }

    /// Classifies the outcome of setting the dialog's title.
    fn SetTitle(&self, hres: HRESULT) -> (r: HrResult<()>)
        ensures
            hres.0 == S_OK ==> r == HrResult::<()>::Ok(()),
            hres.0 != S_OK ==> r == HrResult::<()>::Err(hres),
    {
        ok_to_hrresult(hres)
    }
}

impl shell_IModalWindow for IFileDialog {

}

impl shell_IFileDialog for IFileDialog {

}

} // verus!
