//! From the native status to a result.

use crate::error::Error;
use libc::c_int;
use vstd::prelude::*;

verus! {

/// The status with which a native drawing function reports success. Every
/// other status reports failure.
pub const SUCCESS: c_int = 0;

/// Whether `status` reports success.
pub fn succeeded(status: c_int) -> (ok: bool)
    ensures
        ok == (status == SUCCESS),
{
    status == SUCCESS
}

/// What a drawing operation returns, given the status of its native call and
/// the diagnostic that the native library held right after it: success for
/// [`SUCCESS`], and for every other status a failure that carries the
/// diagnostic unchanged.
pub fn outcome(status: c_int, diagnostic: String) -> (r: Result<(), Error>)
    ensures
        status == SUCCESS ==> r == Ok::<(), Error>(()),
        status != SUCCESS ==> r == Err::<(), Error>(Error::NativeCallFailed(diagnostic)),
{
    if succeeded(status) {
        Ok(())
    } else {
        Err(Error::NativeCallFailed(diagnostic))
    }
}

} // verus!
