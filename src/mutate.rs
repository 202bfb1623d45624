//! Turning the outcome of a name-changing OS call into a result.

use vstd::prelude::*;

use crate::error::HostError;

verus! {

/// Relies on libc::EPERM: the `errno` code of an operation that lacks
/// privilege, which is 1 on Linux.
#[verifier::external_body]
fn code_not_permitted() -> (r: i32)
    ensures
        r == 1,
{
    libc::EPERM
}

/// Relies on libc::EINVAL: the `errno` code of an invalid argument, which is
/// 22 on Linux; `sethostname` reports a name that is too long with it.
#[verifier::external_body]
fn code_invalid_argument() -> (r: i32)
    ensures
        r == 22,
{
    libc::EINVAL
}

/// The result of a name change whose OS call returned `status`, with
/// `errno` the error code it left (if any): 1 is `EPERM`, 22 is `EINVAL`.
pub open spec fn set_result(status: i32, errno: Option<i32>) -> Result<(), HostError> {
    if status == 0 {
        Ok(())
    } else {
        match errno {
            Some(22) => Err(HostError::NameTooLong),
            Some(1) => Err(HostError::PermissionDenied),
            _ => Err(HostError::OsError),
        }
    }
}

/// The result of a name change, from what the OS call returned and the
/// error code it left.
pub fn set_outcome(status: i32, errno: Option<i32>) -> (r: Result<(), HostError>)
    ensures
        r == set_result(status, errno),
{
    if status == 0 {
        return Ok(());
    }
    match errno {
        Some(code) => {
            if code == code_invalid_argument() {
                Err(HostError::NameTooLong)
            } else if code == code_not_permitted() {
                Err(HostError::PermissionDenied)
            } else {
                Err(HostError::OsError)
            }
        },
        None => Err(HostError::OsError),
    }
}

} // verus!
