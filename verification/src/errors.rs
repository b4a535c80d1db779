//! Failure kinds of the update flow, and the HTTP status check.

use vstd::prelude::*;

verus! {

/// The failure kinds that an update flow can surface to its caller.
/// None is silently swallowed and none triggers an automatic retry.
#[derive(Clone, Copy, Debug, PartialEq, Eq, Structural)]
pub enum UpdateError {
    /// A connection or transport failure.
    NetworkError,
    /// A response with a non-success HTTP status; carries the status code.
    HttpStatusError(u16),
    /// A filesystem write, permission or rename failure.
    IoError,
    /// Failure to create the relaunched child process.
    SpawnError,
}

/// An HTTP status code that counts as success: the 2xx range.
pub open spec fn is_success_status(status: u16) -> bool {
    200 <= status && status < 300
}

/// Accepts exactly the 2xx status codes; any other status is rejected
/// with `HttpStatusError` carrying that status.
pub fn check_status(status: u16) -> (r: Result<(), UpdateError>)
    ensures
        match r {
            Ok(_) => is_success_status(status),
            Err(e) => !is_success_status(status) && e == UpdateError::HttpStatusError(status),
        },
{
    if 200 <= status && status < 300 {
        Ok(())
    } else {
        Err(UpdateError::HttpStatusError(status))
    }
}

} // verus!
