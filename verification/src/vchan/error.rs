//! Why a vchan operation fails.

use vstd::prelude::*;

verus! {

/// What stands behind a failed libxenvchan call.
#[derive(Debug, PartialEq, Eq)]
pub enum ApiSource {
    /// The operating system's error code.
    Os(i32),
    /// No error code was left behind: only the name of the call is known.
    Other(&'static str),
}

/// A path that a C string cannot hold.
#[derive(Debug, PartialEq, Eq)]
pub struct NulError {
    /// Where the first NUL byte stands.
    pub position: usize,
    /// The bytes of the path.
    pub bytes: Vec<u8>,
}

#[derive(Debug, PartialEq, Eq)]
pub enum Error {
    /// The libxenvchan call `op` failed.
    Api { op: &'static str, source: ApiSource },
    /// The xenstore path contains an interior NUL byte.
    InvalidPath(NulError),
    /// The vchan peer is closed.
    Closed,
}

/// The error of a failed call `op` that left `errno` behind.
pub open spec fn api_error(op: &'static str, errno: Option<i32>) -> Error {
    Error::Api {
        op,
        source: match errno {
            Some(code) => if code != 0 {
                ApiSource::Os(code)
            } else {
                ApiSource::Other(op)
            },
            None => ApiSource::Other(op),
        },
    }
}

/// Turns the error code that stood after the failed call `op` into an error.
/// A code of zero means that the call did not set one.
pub fn last_error(op: &'static str, errno: Option<i32>) -> (error: Error)
    ensures
        error == api_error(op, errno),
{
    let source = match errno {
        Some(code) if code != 0 => ApiSource::Os(code),
        _ => ApiSource::Other(op),
    };
    Error::Api { op, source }
}

} // verus!
