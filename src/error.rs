//! Failures of a query cycle, and the reading of native status codes.

use vstd::prelude::*;

verus! {

/// Why a query cycle failed.
#[derive(Clone, Copy, Debug, PartialEq, Eq, Structural)]
pub enum SceneError {
    /// A native entry point returned this negative status code.
    NativeCallFailed(i32),
    /// A fill call reported more records than the capacity it was given.
    ProtocolViolation,
    /// A required extension function table was absent when it was needed.
    MissingFeatureTable,
}

/// A native status code: negative values are failures, carried verbatim.
pub fn check_status(status: i32) -> (r: Result<i32, SceneError>)
    ensures
        status >= 0 ==> r == Ok::<i32, SceneError>(status),
        status < 0 ==> r == Err::<i32, SceneError>(SceneError::NativeCallFailed(status)),
{
    if status >= 0 {
        Ok(status)
    } else {
        Err(SceneError::NativeCallFailed(status))
    }
}

} // verus!
