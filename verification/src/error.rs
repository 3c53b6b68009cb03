//! The error values the wrapper reports to its callers.
//!
//! Every failure of the native layer is translated exactly once into one
//! of three kinds and returned; the raw status code never reaches callers
//! except wrapped in [`CupsError::NativeError`].

use vstd::prelude::*;

verus! {

/// A failure reported by the wrapper.
#[derive(Clone, Copy, Debug, PartialEq, Eq, Structural)]
pub enum CupsError {
    /// A caller-supplied string cannot be represented as a null-terminated
    /// byte string, or the native library rejected the target identifier
    /// as structurally invalid.
    InvalidInput,
    /// The native library reported failure without a usable status code.
    Unspecified,
    /// The native library reported a specific system error code, passed
    /// through verbatim.
    NativeError(i32),
}

/// How the status code of a failed native connect call is read: `-1`
/// marks a malformed target identifier, `0` carries no information, and
/// any other value is an operating-system error code to surface verbatim.
pub open spec fn spec_connect_failure(status: i32) -> CupsError {
    if status == -1 {
        CupsError::InvalidInput
    } else if status == 0 {
        CupsError::Unspecified
    } else {
        CupsError::NativeError(status)
    }
}

impl CupsError {
    /// The passthrough system error code, if this error carries one.
    pub fn native_code(&self) -> (r: Option<i32>)
        ensures
            *self is NativeError ==> r == Some(self->NativeError_0),
            !(*self is NativeError) ==> r is None,
    {
        match *self {
            CupsError::NativeError(code) => Some(code),
            _ => None,
        }
    }

    /// A short description of the error kind.
    pub open spec fn spec_message(self) -> Seq<char> {
        match self {
            CupsError::InvalidInput => "invalid input"@,
            CupsError::Unspecified => "unknown native failure"@,
            CupsError::NativeError(_) => "native error"@,
        }
    }

    /// A short human-readable description of the error kind. The system
    /// error code, when there is one, is read with [`Self::native_code`].
    pub fn message(&self) -> (m: &'static str)
        ensures
            m@ == self.spec_message(),
    {
        match *self {
            CupsError::InvalidInput => "invalid input",
            CupsError::Unspecified => "unknown native failure",
            CupsError::NativeError(_) => "native error",
        }
    }
}

} // verus!
