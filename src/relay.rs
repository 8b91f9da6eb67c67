//! How the end of a relayed copy is judged.

use vstd::prelude::*;

verus! {

/// The peer reset the connection (Linux `ECONNRESET`).
pub const ECONNRESET: i32 = 104;
/// The same condition with its BSD and macOS number.
pub const ECONNRESET_BSD: i32 = 54;
/// An invalid argument (`EINVAL`); a peer address query on a socket closed meanwhile.
pub const EINVAL: i32 = 22;

/// The direction of a copy between the client and the remote.
#[derive(Clone, Copy, Debug, PartialEq, Eq, Structural)]
pub enum RelaySide {
    ClientToRemote,
    RemoteToClient,
}

/// A copy that failed other than by a reset.
#[derive(Clone, Copy, Debug, PartialEq, Eq, Structural)]
pub struct RelayIoError {
    pub side: RelaySide,
    pub os_error: Option<i32>,
}

/// A connection reset ends a copy as an end of stream would.
pub open spec fn is_reset(os_error: Option<i32>) -> bool {
    os_error == Some(ECONNRESET) || os_error == Some(ECONNRESET_BSD)
}

/// How a finished copy in direction `side` counts: a clean end, or an error to
/// report. `result` is the number of bytes copied, or the OS error number of a
/// failure.
pub fn copy_outcome(side: RelaySide, result: Result<u64, Option<i32>>) -> (r: Result<(), RelayIoError>)
    ensures
        r is Ok <==> (result is Ok || is_reset(result->Err_0)),
        r matches Err(e) ==> e == (RelayIoError { side, os_error: result->Err_0 }),
{
    match result {
        Ok(_) => Ok(()),
        Err(c) => {
            let reset = match c {
                Some(n) => n == ECONNRESET || n == ECONNRESET_BSD,
                None => false,
            };
            if reset {
                Ok(())
            } else {
                Err(RelayIoError { side, os_error: c })
            }
        },
    }
}

/// Whether a failed query of the client's address means the client has already
/// gone, which ends the connection without error.
pub fn client_already_closed(os_error: Option<i32>) -> (r: bool)
    ensures
        r == (os_error == Some(EINVAL)),
{
    match os_error {
        Some(n) => n == EINVAL,
        None => false,
    }
}

} // verus!
