//! The shell launch call, from a window.

use vstd::prelude::*;
use crate::co::SE_ERR;
use crate::handles::{Handle, HINSTANCE, HWND};

verus! {

/// Shell methods for a window handle.
pub trait shell_Hwnd: Handle {
    /// Classifies the outcome of the shell launch call: by its convention,
    /// any return value up to 32 is one of the distinguished shell error
    /// codes, anything above is the instance handle of the started
    /// application.
    fn ShellExecute(&self, ret: usize) -> (r: Result<HINSTANCE, SE_ERR>)
        ensures
            ret <= 32 ==> r == Result::<HINSTANCE, SE_ERR>::Err(SE_ERR(ret as u32)),
            ret > 32 ==> r == Result::<HINSTANCE, SE_ERR>::Ok(HINSTANCE(ret)),
    {
        if ret <= 32 {
            Err(SE_ERR(ret as u32))
        } else {
            Ok(HINSTANCE(ret))
        }
    }
}

impl shell_Hwnd for HWND {

}

} // verus!
