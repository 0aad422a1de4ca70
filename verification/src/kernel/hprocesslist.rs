//! Process-list snapshots: the snapshot handle, the entry records, and the
//! enumeration state machines.
//!
//! A snapshot is walked with a first-entry call followed by next-entry
//! calls; each returns a boolean sentinel, and the no-more-entries last
//! error marks the normal end. The iterators here keep the walk's state —
//! whether the first call is still owed, and whether the walk already
//! ended — while each OS call's raw outcome and the entry it filled are
//! handed in.

use vstd::prelude::*;
use crate::co::{ERROR, ERROR_NO_MORE_FILES};
use crate::handles::{Handle, HPROCESSLIST};
use crate::results::{more_entries_to_sysresult, ptr_to_sysresult, SysResult};

verus! {

/// One heap-list entry of a snapshot.
#[derive(Clone, Copy, PartialEq, Eq, Structural, Debug)]
pub struct HEAPLIST32 {
    /// The owning process.
    pub th32ProcessID: u32,
    /// The heap identifier.
    pub th32HeapID: usize,
    /// The heap flags.
    pub dwFlags: u32,
}

/// One module entry of a snapshot.
#[derive(Clone, Copy, PartialEq, Eq, Structural, Debug)]
pub struct MODULEENTRY32 {
    /// The module identifier.
    pub th32ModuleID: u32,
    /// The owning process.
    pub th32ProcessID: u32,
    /// The module image size.
    pub modBaseSize: u32,
}

/// One process entry of a snapshot.
#[derive(Clone, Copy, PartialEq, Eq, Structural, Debug)]
pub struct PROCESSENTRY32 {
    /// The process identifier.
    pub th32ProcessID: u32,
    /// How many threads the process runs.
    pub cntThreads: u32,
    /// The parent process identifier.
    pub th32ParentProcessID: u32,
}

/// One thread entry of a snapshot.
#[derive(Clone, Copy, PartialEq, Eq, Structural, Debug)]
pub struct THREADENTRY32 {
    /// The thread identifier.
    pub th32ThreadID: u32,
    /// The process owning the thread.
    pub th32OwnerProcessID: u32,
    /// The thread's base priority.
    pub tpBasePri: i32,
}

/// Methods for a process-list snapshot handle: the snapshot acquisition and
/// the enumeration steps, each classifying the raw outcome of its call.
pub trait kernel_Hprocesslist: Handle {
    /// Classifies the outcome of taking a snapshot: a null handle is the
    /// failure carried by the last-error code, anything else is the
    /// snapshot handle, to be paired with a close.
    fn CreateToolhelp32Snapshot(raw: usize, last_error: ERROR) -> (r: SysResult<HPROCESSLIST>)
        ensures
            raw == 0 ==> r == SysResult::<HPROCESSLIST>::Err(last_error),
            raw != 0 ==> r == SysResult::<HPROCESSLIST>::Ok(HPROCESSLIST(raw)),
    {
        match ptr_to_sysresult(raw, last_error) {
            Ok(p) => Ok(HPROCESSLIST(p)),
            Err(e) => Err(e),
        }
    }

    /// Classifies one first-heap-list enumeration step.
    fn Heap32ListFirst(&self, ret: u32, last_error: ERROR) -> (r: SysResult<bool>)
        ensures
            ret != 0 ==> r == SysResult::<bool>::Ok(true),
            ret == 0 && last_error == ERROR(ERROR_NO_MORE_FILES) ==> r == SysResult::<bool>::Ok(
                false),
            ret == 0 && last_error != ERROR(ERROR_NO_MORE_FILES) ==> r == SysResult::<bool>::Err(
                last_error),
    {
        more_entries_to_sysresult(ret, last_error)
    }

    /// Classifies one next-heap-list enumeration step.
    fn Heap32ListNext(&self, ret: u32, last_error: ERROR) -> (r: SysResult<bool>)
        ensures
            ret != 0 ==> r == SysResult::<bool>::Ok(true),
            ret == 0 && last_error == ERROR(ERROR_NO_MORE_FILES) ==> r == SysResult::<bool>::Ok(
                false),
            ret == 0 && last_error != ERROR(ERROR_NO_MORE_FILES) ==> r == SysResult::<bool>::Err(
                last_error),
    {
        more_entries_to_sysresult(ret, last_error)
    }

    /// Classifies one first-module enumeration step.
    fn Module32First(&self, ret: u32, last_error: ERROR) -> (r: SysResult<bool>)
        ensures
            ret != 0 ==> r == SysResult::<bool>::Ok(true),
            ret == 0 && last_error == ERROR(ERROR_NO_MORE_FILES) ==> r == SysResult::<bool>::Ok(
                false),
            ret == 0 && last_error != ERROR(ERROR_NO_MORE_FILES) ==> r == SysResult::<bool>::Err(
                last_error),
    {
        more_entries_to_sysresult(ret, last_error)
    }

    /// Classifies one next-module enumeration step.
    fn Module32Next(&self, ret: u32, last_error: ERROR) -> (r: SysResult<bool>)
        ensures
            ret != 0 ==> r == SysResult::<bool>::Ok(true),
            ret == 0 && last_error == ERROR(ERROR_NO_MORE_FILES) ==> r == SysResult::<bool>::Ok(
                false),
            ret == 0 && last_error != ERROR(ERROR_NO_MORE_FILES) ==> r == SysResult::<bool>::Err(
                last_error),
    {
        more_entries_to_sysresult(ret, last_error)
    }

    /// Classifies one first-process enumeration step.
    fn Process32First(&self, ret: u32, last_error: ERROR) -> (r: SysResult<bool>)
        ensures
            ret != 0 ==> r == SysResult::<bool>::Ok(true),
            ret == 0 && last_error == ERROR(ERROR_NO_MORE_FILES) ==> r == SysResult::<bool>::Ok(
                false),
            ret == 0 && last_error != ERROR(ERROR_NO_MORE_FILES) ==> r == SysResult::<bool>::Err(
                last_error),
    {
        more_entries_to_sysresult(ret, last_error)
    }

    /// Classifies one next-process enumeration step.
    fn Process32Next(&self, ret: u32, last_error: ERROR) -> (r: SysResult<bool>)
        ensures
            ret != 0 ==> r == SysResult::<bool>::Ok(true),
            ret == 0 && last_error == ERROR(ERROR_NO_MORE_FILES) ==> r == SysResult::<bool>::Ok(
                false),
            ret == 0 && last_error != ERROR(ERROR_NO_MORE_FILES) ==> r == SysResult::<bool>::Err(
                last_error),
    {
        more_entries_to_sysresult(ret, last_error)
    }

    /// Classifies one first-thread enumeration step.
    fn Thread32First(&self, ret: u32, last_error: ERROR) -> (r: SysResult<bool>)
        ensures
            ret != 0 ==> r == SysResult::<bool>::Ok(true),
            ret == 0 && last_error == ERROR(ERROR_NO_MORE_FILES) ==> r == SysResult::<bool>::Ok(
                false),
            ret == 0 && last_error != ERROR(ERROR_NO_MORE_FILES) ==> r == SysResult::<bool>::Err(
                last_error),
    {
        more_entries_to_sysresult(ret, last_error)
    }

    /// Classifies one next-thread enumeration step.
    fn Thread32Next(&self, ret: u32, last_error: ERROR) -> (r: SysResult<bool>)
        ensures
            ret != 0 ==> r == SysResult::<bool>::Ok(true),
            ret == 0 && last_error == ERROR(ERROR_NO_MORE_FILES) ==> r == SysResult::<bool>::Ok(
                false),
            ret == 0 && last_error != ERROR(ERROR_NO_MORE_FILES) ==> r == SysResult::<bool>::Err(
                last_error),
    {
        more_entries_to_sysresult(ret, last_error)
    }

    /// A fresh heap-list walk over this snapshot.
    fn iter_heaps(&self) -> (it: HeapIter)
        ensures
            it.hpl_spec().0 == self.raw_spec(),
            it.first_pass_spec(),
            it.has_more_spec(),
    {
        HeapIter::new(HPROCESSLIST(self.as_raw()))
    }

    /// A fresh module walk over this snapshot.
    fn iter_modules(&self) -> (it: ModuleIter)
        ensures
            it.hpl_spec().0 == self.raw_spec(),
            it.first_pass_spec(),
            it.has_more_spec(),
    {
        ModuleIter::new(HPROCESSLIST(self.as_raw()))
    }

    /// A fresh process walk over this snapshot.
    fn iter_processes(&self) -> (it: ProcessIter)
        ensures
            it.hpl_spec().0 == self.raw_spec(),
            it.first_pass_spec(),
            it.has_more_spec(),
    {
        ProcessIter::new(HPROCESSLIST(self.as_raw()))
    }

    /// A fresh thread walk over this snapshot.
    fn iter_threads(&self) -> (it: ThreadIter)
        ensures
            it.hpl_spec().0 == self.raw_spec(),
            it.first_pass_spec(),
            it.has_more_spec(),
    {
        ThreadIter::new(HPROCESSLIST(self.as_raw()))
    }
}

impl kernel_Hprocesslist for HPROCESSLIST {

}

/// Walk state over the heap lists of a snapshot.
pub struct HeapIter {
    hpl: HPROCESSLIST,
    first_pass: bool,
    has_more: bool,
}

impl HeapIter {
    /// The snapshot being walked.
    pub closed spec fn hpl_spec(&self) -> HPROCESSLIST {
        self.hpl
    }

    /// Whether the first-entry call is still owed.
    pub closed spec fn first_pass_spec(&self) -> bool {
        self.first_pass
    }

    /// Whether the walk may still produce entries.
    pub closed spec fn has_more_spec(&self) -> bool {
        self.has_more
    }

    /// A fresh walk over the given snapshot.
    pub fn new(hpl: HPROCESSLIST) -> (it: Self)
        ensures
            it.hpl_spec() == hpl,
            it.first_pass_spec(),
            it.has_more_spec(),
    {
        HeapIter { hpl, first_pass: true, has_more: true }
    }

    /// Whether the next OS call owed is the first-entry call rather than
    /// the next-entry call.
    pub fn wants_first(&self) -> (r: bool)
        ensures
            r == self.first_pass_spec(),
    {
        self.first_pass
    }

    /// One walk step, fed with the raw outcome of the owed enumeration call
    /// and the entry it filled. A walk that already ended produces nothing
    /// and stays ended. Otherwise a non-zero outcome produces the entry; a
    /// zero outcome ends the walk — quietly on the no-more-entries error,
    /// with that failure produced once on any other.
    pub fn next(&mut self, ret: u32, last_error: ERROR, entry: HEAPLIST32) -> (r: Option<
        SysResult<HEAPLIST32>,
    >)
        ensures
            final(self).hpl_spec() == old(self).hpl_spec(),
            !old(self).has_more_spec() ==> r == Option::<SysResult<HEAPLIST32>>::None && final(
                self).first_pass_spec() == old(self).first_pass_spec() && !final(
                self).has_more_spec(),
            old(self).has_more_spec() ==> {
                &&& !final(self).first_pass_spec()
                &&& ret != 0 ==> r == Option::<SysResult<HEAPLIST32>>::Some(Ok(entry)) && final(
                    self).has_more_spec()
                &&& ret == 0 && last_error == ERROR(ERROR_NO_MORE_FILES) ==> r == Option::<
                    SysResult<HEAPLIST32>,
                >::None && !final(self).has_more_spec()
                &&& ret == 0 && last_error != ERROR(ERROR_NO_MORE_FILES) ==> r == Option::<
                    SysResult<HEAPLIST32>,
                >::Some(Err(last_error)) && !final(self).has_more_spec()
            },
    {
        if !self.has_more {
            return None;
        }
        self.first_pass = false;
        match more_entries_to_sysresult(ret, last_error) {
            Err(e) => {
                self.has_more = false;
                Some(Err(e))
            },
            Ok(has_more) => {
                self.has_more = has_more;
                if has_more {
                    Some(Ok(entry))
                } else {
                    None
                }
            },
        }
    }
}

/// Walk state over the modules of a snapshot.
pub struct ModuleIter {
    hpl: HPROCESSLIST,
    first_pass: bool,
    has_more: bool,
}

impl ModuleIter {
    /// The snapshot being walked.
    pub closed spec fn hpl_spec(&self) -> HPROCESSLIST {
        self.hpl
    }

    /// Whether the first-entry call is still owed.
    pub closed spec fn first_pass_spec(&self) -> bool {
        self.first_pass
    }

    /// Whether the walk may still produce entries.
    pub closed spec fn has_more_spec(&self) -> bool {
        self.has_more
    }

    /// A fresh walk over the given snapshot.
    pub fn new(hpl: HPROCESSLIST) -> (it: Self)
        ensures
            it.hpl_spec() == hpl,
            it.first_pass_spec(),
            it.has_more_spec(),
    {
        ModuleIter { hpl, first_pass: true, has_more: true }
    }

    /// Whether the next OS call owed is the first-entry call rather than
    /// the next-entry call.
    pub fn wants_first(&self) -> (r: bool)
        ensures
            r == self.first_pass_spec(),
    {
        self.first_pass
    }

    /// One walk step, fed with the raw outcome of the owed enumeration call
    /// and the entry it filled. A walk that already ended produces nothing
    /// and stays ended. Otherwise a non-zero outcome produces the entry; a
    /// zero outcome ends the walk — quietly on the no-more-entries error,
    /// with that failure produced once on any other.
    pub fn next(&mut self, ret: u32, last_error: ERROR, entry: MODULEENTRY32) -> (r: Option<
        SysResult<MODULEENTRY32>,
    >)
        ensures
            final(self).hpl_spec() == old(self).hpl_spec(),
            !old(self).has_more_spec() ==> r == Option::<SysResult<MODULEENTRY32>>::None && final(
                self).first_pass_spec() == old(self).first_pass_spec() && !final(
                self).has_more_spec(),
            old(self).has_more_spec() ==> {
                &&& !final(self).first_pass_spec()
                &&& ret != 0 ==> r == Option::<SysResult<MODULEENTRY32>>::Some(Ok(entry)) && final(
                    self).has_more_spec()
                &&& ret == 0 && last_error == ERROR(ERROR_NO_MORE_FILES) ==> r == Option::<
                    SysResult<MODULEENTRY32>,
                >::None && !final(self).has_more_spec()
                &&& ret == 0 && last_error != ERROR(ERROR_NO_MORE_FILES) ==> r == Option::<
                    SysResult<MODULEENTRY32>,
                >::Some(Err(last_error)) && !final(self).has_more_spec()
            },
    {
        if !self.has_more {
            return None;
        }
        self.first_pass = false;
        match more_entries_to_sysresult(ret, last_error) {
            Err(e) => {
                self.has_more = false;
                Some(Err(e))
            },
            Ok(has_more) => {
                self.has_more = has_more;
                if has_more {
                    Some(Ok(entry))
                } else {
                    None
                }
            },
        }
    }
}

/// Walk state over the processes of a snapshot.
pub struct ProcessIter {
    hpl: HPROCESSLIST,
    first_pass: bool,
    has_more: bool,
}

impl ProcessIter {
    /// The snapshot being walked.
    pub closed spec fn hpl_spec(&self) -> HPROCESSLIST {
        self.hpl
    }

    /// Whether the first-entry call is still owed.
    pub closed spec fn first_pass_spec(&self) -> bool {
        self.first_pass
    }

    /// Whether the walk may still produce entries.
    pub closed spec fn has_more_spec(&self) -> bool {
        self.has_more
    }

    /// A fresh walk over the given snapshot.
    pub fn new(hpl: HPROCESSLIST) -> (it: Self)
        ensures
            it.hpl_spec() == hpl,
            it.first_pass_spec(),
            it.has_more_spec(),
    {
        ProcessIter { hpl, first_pass: true, has_more: true }
    }

    /// Whether the next OS call owed is the first-entry call rather than
    /// the next-entry call.
    pub fn wants_first(&self) -> (r: bool)
        ensures
            r == self.first_pass_spec(),
    {
        self.first_pass
    }

    /// One walk step, fed with the raw outcome of the owed enumeration call
    /// and the entry it filled. A walk that already ended produces nothing
    /// and stays ended. Otherwise a non-zero outcome produces the entry; a
    /// zero outcome ends the walk — quietly on the no-more-entries error,
    /// with that failure produced once on any other.
    pub fn next(&mut self, ret: u32, last_error: ERROR, entry: PROCESSENTRY32) -> (r: Option<
        SysResult<PROCESSENTRY32>,
    >)
        ensures
            final(self).hpl_spec() == old(self).hpl_spec(),
            !old(self).has_more_spec() ==> r == Option::<SysResult<PROCESSENTRY32>>::None && final(
                self).first_pass_spec() == old(self).first_pass_spec() && !final(
                self).has_more_spec(),
            old(self).has_more_spec() ==> {
                &&& !final(self).first_pass_spec()
                &&& ret != 0 ==> r == Option::<SysResult<PROCESSENTRY32>>::Some(Ok(entry)) && final(
                    self).has_more_spec()
                &&& ret == 0 && last_error == ERROR(ERROR_NO_MORE_FILES) ==> r == Option::<
                    SysResult<PROCESSENTRY32>,
                >::None && !final(self).has_more_spec()
                &&& ret == 0 && last_error != ERROR(ERROR_NO_MORE_FILES) ==> r == Option::<
                    SysResult<PROCESSENTRY32>,
                >::Some(Err(last_error)) && !final(self).has_more_spec()
            },
    {
        if !self.has_more {
            return None;
        }
        self.first_pass = false;
        match more_entries_to_sysresult(ret, last_error) {
            Err(e) => {
                self.has_more = false;
                Some(Err(e))
            },
            Ok(has_more) => {
                self.has_more = has_more;
                if has_more {
                    Some(Ok(entry))
                } else {
                    None
                }
            },
        }
    }
}

/// Walk state over the threads of a snapshot.
pub struct ThreadIter {
    hpl: HPROCESSLIST,
    first_pass: bool,
    has_more: bool,
}

impl ThreadIter {
    /// The snapshot being walked.
    pub closed spec fn hpl_spec(&self) -> HPROCESSLIST {
        self.hpl
    }

    /// Whether the first-entry call is still owed.
    pub closed spec fn first_pass_spec(&self) -> bool {
        self.first_pass
    }

    /// Whether the walk may still produce entries.
    pub closed spec fn has_more_spec(&self) -> bool {
        self.has_more
    }

    /// A fresh walk over the given snapshot.
    pub fn new(hpl: HPROCESSLIST) -> (it: Self)
        ensures
            it.hpl_spec() == hpl,
            it.first_pass_spec(),
            it.has_more_spec(),
    {
        ThreadIter { hpl, first_pass: true, has_more: true }
    }

    /// Whether the next OS call owed is the first-entry call rather than
    /// the next-entry call.
    pub fn wants_first(&self) -> (r: bool)
        ensures
            r == self.first_pass_spec(),
    {
        self.first_pass
    }

    /// One walk step, fed with the raw outcome of the owed enumeration call
    /// and the entry it filled. A walk that already ended produces nothing
    /// and stays ended. Otherwise a non-zero outcome produces the entry; a
    /// zero outcome ends the walk — quietly on the no-more-entries error,
    /// with that failure produced once on any other.
    pub fn next(&mut self, ret: u32, last_error: ERROR, entry: THREADENTRY32) -> (r: Option<
        SysResult<THREADENTRY32>,
    >)
        ensures
            final(self).hpl_spec() == old(self).hpl_spec(),
            !old(self).has_more_spec() ==> r == Option::<SysResult<THREADENTRY32>>::None && final(
                self).first_pass_spec() == old(self).first_pass_spec() && !final(
                self).has_more_spec(),
            old(self).has_more_spec() ==> {
                &&& !final(self).first_pass_spec()
                &&& ret != 0 ==> r == Option::<SysResult<THREADENTRY32>>::Some(Ok(entry)) && final(
                    self).has_more_spec()
                &&& ret == 0 && last_error == ERROR(ERROR_NO_MORE_FILES) ==> r == Option::<
                    SysResult<THREADENTRY32>,
                >::None && !final(self).has_more_spec()
                &&& ret == 0 && last_error != ERROR(ERROR_NO_MORE_FILES) ==> r == Option::<
                    SysResult<THREADENTRY32>,
                >::Some(Err(last_error)) && !final(self).has_more_spec()
            },
    {
        if !self.has_more {
            return None;
        }
        self.first_pass = false;
        match more_entries_to_sysresult(ret, last_error) {
            Err(e) => {
                self.has_more = false;
                Some(Err(e))
            },
            Ok(has_more) => {
                self.has_more = has_more;
                if has_more {
                    Some(Ok(entry))
                } else {
                    None
                }
            },
        }
    }
}

} // verus!
