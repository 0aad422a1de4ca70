//! Console device calls: classification of their raw outcomes.

use vstd::prelude::*;
use crate::co::ERROR;
use crate::guard::CloseHandleGuard;
use crate::handles::{Handle, HSTD, INVALID_HANDLE_VALUE};
use crate::results::{bool_to_sysresult, SysResult};

verus! {

/// Methods for a standard console device handle: each takes the raw outcome
/// of the corresponding console call and classifies it.
pub trait kernel_Hstd: Handle {
    /// Classifies the outcome of flushing the console input buffer: zero is
    /// the failure carried by the last-error code.
    fn FlushConsoleInputBuffer(&self, ret: i32, last_error: ERROR) -> (r: SysResult<()>)
        ensures
            ret == 0 ==> r == SysResult::<()>::Err(last_error),
            ret != 0 ==> r == SysResult::<()>::Ok(()),
    {
        bool_to_sysresult(ret, last_error)
    }

    /// Classifies the outcome of querying the console mode: on success the
    /// mode the call wrote out is the payload.
    fn GetConsoleMode(&self, ret: i32, last_error: ERROR, mode: u32) -> (r: SysResult<u32>)
        ensures
            ret == 0 ==> r == SysResult::<u32>::Err(last_error),
            ret != 0 ==> r == SysResult::<u32>::Ok(mode),
    {
        match bool_to_sysresult(ret, last_error) {
            Ok(_) => Ok(mode),
            Err(e) => Err(e),
        }
    }

    /// Classifies the outcome of opening a standard device: the invalid
    /// sentinel, or a null handle no guard could own, is the failure carried
    /// by the last-error code; any other handle is owned by the returned
    /// guard, which carries the obligation to close it.
    fn GetStdHandle(raw: usize, last_error: ERROR) -> (r: SysResult<CloseHandleGuard<HSTD>>)
        ensures
            raw == 0 || raw == INVALID_HANDLE_VALUE ==> r == SysResult::<
                CloseHandleGuard<HSTD>,
            >::Err(last_error),
            raw != 0 && raw != INVALID_HANDLE_VALUE ==> (r matches Ok(g) && g.raw_spec() == raw
                && g.wf()),
    {
        if raw == 0 || raw == INVALID_HANDLE_VALUE {
            Err(last_error)
        } else {
            Ok(CloseHandleGuard::new(HSTD(raw)))
        }
    }

    /// Classifies the outcome of reading from the console: on success the
    /// number of characters the call reported is the payload.
    fn ReadConsole(&self, ret: i32, last_error: ERROR, num_read: u32) -> (r: SysResult<u32>)
        ensures
            ret == 0 ==> r == SysResult::<u32>::Err(last_error),
            ret != 0 ==> r == SysResult::<u32>::Ok(num_read),
    {
        match bool_to_sysresult(ret, last_error) {
            Ok(_) => Ok(num_read),
            Err(e) => Err(e),
        }
    }

    /// Classifies the outcome of setting the console mode: zero is the
    /// failure carried by the last-error code.
    fn SetConsoleMode(&self, ret: i32, last_error: ERROR) -> (r: SysResult<()>)
        ensures
            ret == 0 ==> r == SysResult::<()>::Err(last_error),
            ret != 0 ==> r == SysResult::<()>::Ok(()),
    {
        bool_to_sysresult(ret, last_error)
    }

    /// Classifies the outcome of writing to the console: on success the
    /// number of characters the call reported is the payload.
    fn WriteConsole(&self, ret: i32, last_error: ERROR, num_written: u32) -> (r: SysResult<u32>)
        ensures
            ret == 0 ==> r == SysResult::<u32>::Err(last_error),
            ret != 0 ==> r == SysResult::<u32>::Ok(num_written),
    {
        match bool_to_sysresult(ret, last_error) {
            Ok(_) => Ok(num_written),
            Err(e) => Err(e),
        }
    }
}

impl kernel_Hstd for HSTD {

}

} // verus!
