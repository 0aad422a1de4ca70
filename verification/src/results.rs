//! The two platform error conventions, each turned into a typed result.
//!
//! Convention one: a call returns a sentinel (zero, null) on failure and the
//! specific error is fetched from the thread's last-error side channel.
//! Convention two: a call returns a status code directly; zero is success and
//! any other value carries the failure. Every helper here takes the raw
//! outcome as plain values and classifies it; nothing else in the library
//! inspects raw outcomes directly.

use vstd::prelude::*;
use crate::co::{ERROR, HRESULT, ERROR_BAD_ARGUMENTS, ERROR_NO_MORE_FILES, S_FALSE, S_OK};

verus! {

/// Outcome of a sentinel-convention call: the payload, or the last-error code.
pub type SysResult<T> = Result<T, ERROR>;

/// Outcome of a status-convention call: the payload, or the carried status.
pub type HrResult<T> = Result<T, HRESULT>;

/// Sentinel convention for calls whose only failure signal is a zero return:
/// zero is rejected as a bad-arguments failure, anything else is the payload.
pub fn zero_as_err(v: isize) -> (r: SysResult<isize>)
    ensures
        v == 0 ==> r == SysResult::<isize>::Err(ERROR(ERROR_BAD_ARGUMENTS)),
        v != 0 ==> r == SysResult::<isize>::Ok(v),
{
    if v == 0 {
        Err(ERROR(ERROR_BAD_ARGUMENTS))
    } else {
        Ok(v)
    }
}

/// Sentinel convention for boolean-returning calls: a zero return means
/// failure and the last-error code fetched beside it is the failure; any
/// other return means success.
pub fn bool_to_sysresult(ret: i32, last_error: ERROR) -> (r: SysResult<()>)
    ensures
        ret == 0 ==> r == SysResult::<()>::Err(last_error),
        ret != 0 ==> r == SysResult::<()>::Ok(()),
{
    if ret == 0 {
        Err(last_error)
    } else {
        Ok(())
    }
}

/// Sentinel convention for handle-returning calls: a null return means
/// failure and the last-error code fetched beside it is the failure; any
/// other return is the raw handle value.
pub fn ptr_to_sysresult(ptr: usize, last_error: ERROR) -> (r: SysResult<usize>)
    ensures
        ptr == 0 ==> r == SysResult::<usize>::Err(last_error),
        ptr != 0 ==> r == SysResult::<usize>::Ok(ptr),
{
    if ptr == 0 {
        Err(last_error)
    } else {
        Ok(ptr)
    }
}

/// Status convention: a zero status is success, any other status is carried
/// as the failure.
pub fn ok_to_hrresult(hres: HRESULT) -> (r: HrResult<()>)
    ensures
        hres.0 == S_OK ==> r == HrResult::<()>::Ok(()),
        hres.0 != S_OK ==> r == HrResult::<()>::Err(hres),
{
    if hres.0 == S_OK {
        Ok(())
    } else {
        Err(hres)
    }
}

/// Status convention for calls that report a boolean through the two success
/// statuses: the zero status is a true result, the false status a false one,
/// and any other status is carried as the failure.
pub fn okfalse_to_hrresult(hres: HRESULT) -> (r: HrResult<bool>)
    ensures
        hres.0 == S_OK ==> r == HrResult::<bool>::Ok(true),
        hres.0 == S_FALSE ==> r == HrResult::<bool>::Ok(false),
        hres.0 != S_OK && hres.0 != S_FALSE ==> r == HrResult::<bool>::Err(hres),
{
    if hres.0 == S_OK {
        Ok(true)
    } else if hres.0 == S_FALSE {
        Ok(false)
    } else {
        Err(hres)
    }
}

/// Sentinel convention for enumeration steps: a zero return with the
/// no-more-entries last error is the normal end, a zero return with any other
/// last error is that failure, and a non-zero return means an entry was
/// produced.
pub fn more_entries_to_sysresult(ret: u32, last_error: ERROR) -> (r: SysResult<bool>)
    ensures
        ret != 0 ==> r == SysResult::<bool>::Ok(true),
        ret == 0 && last_error == ERROR(ERROR_NO_MORE_FILES)
            ==> r == SysResult::<bool>::Ok(false),
        ret == 0 && last_error != ERROR(ERROR_NO_MORE_FILES)
            ==> r == SysResult::<bool>::Err(last_error),
{
    if ret != 0 {
        Ok(true)
    } else if last_error == ERROR(ERROR_NO_MORE_FILES) {
        Ok(false)
    } else {
        Err(last_error)
    }
}

} // verus!
