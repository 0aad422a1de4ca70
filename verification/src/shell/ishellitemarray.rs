//! The shell item array interface and the walk over its items.

use vstd::prelude::*;
use crate::co::{HRESULT, S_OK};
use crate::handles::ComPtr;
use crate::results::{ok_to_hrresult, HrResult};
use crate::shell::ishellitem::IShellItem;

verus! {

/// A shell item array object, carried by its interface pointer.
pub struct IShellItemArray {
    ptr: ComPtr,
}

impl IShellItemArray {
    /// The underlying interface pointer.
    pub closed spec fn ptr_spec(&self) -> ComPtr {
        self.ptr
    }

    /// Wraps an interface pointer, taking over its reference.
    pub fn from_ptr(ptr: ComPtr) -> (o: Self)
        ensures
            o.ptr_spec() == ptr,
    {
        IShellItemArray { ptr }
    }

    /// The underlying interface pointer, for further calls.
    pub fn ptr(&self) -> (p: ComPtr)
        ensures
            p == self.ptr_spec(),
    {
        self.ptr
    }
}

/// Methods of the shell item array interface: each takes the raw outcome of
/// the corresponding call and classifies it.
pub trait shell_IShellItemArray: Sized {
    /// Classifies the outcome of querying how many items the array holds:
    /// on success the count the call wrote out is the payload.
    fn GetCount(&self, hres: HRESULT, count: u32) -> (r: HrResult<u32>)
        ensures
            hres.0 == S_OK ==> r == HrResult::<u32>::Ok(count),
            hres.0 != S_OK ==> r == HrResult::<u32>::Err(hres),
    {
        match ok_to_hrresult(hres) {
            Ok(_) => Ok(count),
            Err(e) => Err(e),
        }
    }

    /// Classifies the outcome of fetching the item at an index: on success
    /// the item, carried by the pointer the call wrote out, is the payload.
    fn GetItemAt(&self, hres: HRESULT, item: ComPtr) -> (r: HrResult<IShellItem>)
        ensures
            hres.0 == S_OK ==> (r matches Ok(it) && it.ptr_spec() == item),
            hres.0 != S_OK ==> r == HrResult::<IShellItem>::Err(hres),
    {
        match ok_to_hrresult(hres) {
            Ok(_) => Ok(IShellItem::from_ptr(item)),
            Err(e) => Err(e),
        }
    }

    /// Begins a walk over the array's items, fed with the outcome of the
    /// count query: on success a fresh walk of that many items, positioned
    /// at the first; on failure the carried status.
    fn iter(&self, count_hres: HRESULT, count: u32) -> (r: HrResult<ShellItemIter>)
        ensures
            count_hres.0 == S_OK ==> (r matches Ok(it) && it.count_spec() == count
                && it.current_spec() == 0),
            count_hres.0 != S_OK ==> r == HrResult::<ShellItemIter>::Err(count_hres),
    {
        ShellItemIter::new(count_hres, count)
    }
}

impl shell_IShellItemArray for IShellItemArray {

}

/// Walk state over the items of a shell item array: how many items there
/// are and which index comes next. A failure while fetching ends the walk.
pub struct ShellItemIter {
    count: u32,
    current: u32,
}

impl ShellItemIter {
    /// How many items the walked array holds.
    pub closed spec fn count_spec(&self) -> u32 {
        self.count
    }

    /// The index the next step will ask for; the walk has ended once it
    /// reaches the count.
    pub closed spec fn current_spec(&self) -> u32 {
        self.current
    }

    /// A fresh walk, fed with the outcome of the count query: on success a
    /// walk over that many items, positioned at the first; on failure the
    /// carried status.
    pub fn new(count_hres: HRESULT, count: u32) -> (r: HrResult<Self>)
        ensures
            count_hres.0 == S_OK ==> (r matches Ok(it) && it.count_spec() == count
                && it.current_spec() == 0),
            count_hres.0 != S_OK ==> r == HrResult::<Self>::Err(count_hres),
    {
        match ok_to_hrresult(count_hres) {
            Ok(_) => Ok(ShellItemIter { count, current: 0 }),
            Err(e) => Err(e),
        }
    }

    /// The index the next step will ask for.
    pub fn current(&self) -> (i: u32)
        ensures
            i == self.current_spec(),
    {
        self.current
    }

    /// Whether the walk has ended.
    pub fn done(&self) -> (r: bool)
        ensures
            r == (self.current_spec() == self.count_spec()),
    {
        self.current == self.count
    }

    /// One walk step, fed with the outcome of fetching the item at the
    /// current index. A walk that reached its count produces nothing. A
    /// fetched item is produced and the walk advances by one; a failure is
    /// produced once and ends the walk.
    pub fn next(&mut self, item: HrResult<IShellItem>) -> (r: Option<HrResult<IShellItem>>)
        requires
            old(self).current_spec() <= old(self).count_spec(),
        ensures
            final(self).count_spec() == old(self).count_spec(),
            final(self).current_spec() <= final(self).count_spec(),
            old(self).current_spec() == old(self).count_spec() ==> r is None && final(
                self).current_spec() == old(self).current_spec(),
            old(self).current_spec() < old(self).count_spec() ==> match item {
                Ok(it) => (r matches Some(s) && s matches Ok(out) && out.ptr_spec()
                    == it.ptr_spec()) && final(self).current_spec() == old(self).current_spec()
                    + 1,
                Err(e) => r == Option::<HrResult<IShellItem>>::Some(Err(e)) && final(
                    self).current_spec() == final(self).count_spec(),
            },
    {
        if self.current == self.count {
            return None;
        }
        match item {
            Err(e) => {
                self.current = self.count;
                Some(Err(e))
            },
            Ok(shell_item) => {
                self.current = self.current + 1;
                Some(Ok(shell_item))
            },
        }
    }
}

} // verus!
