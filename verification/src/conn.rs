//! Ownership of one native printer connection.
//!
//! A [`Connection`] is created only by a successful [`Connection::connect`]
//! and owns exactly one non-null native handle. Nothing clones the value,
//! and [`Connection::release`] consumes it, so the handle can be handed
//! back for the native free call at most once: a second release does not
//! type-check, by construction rather than by a runtime check.

use vstd::prelude::*;

use crate::error::CupsError;
use crate::error::spec_connect_failure;
use crate::text::contains_nul;
use crate::text::has_nul_char;

verus! {

/// The two raw outputs of the native connect entry point, taken together:
/// the returned handle, with `0` standing for the null pointer, and the
/// status code written to the out-parameter. The wrapper interprets the
/// pair in one step and never exposes the raw status to its callers.
#[derive(Clone, Copy, Debug, PartialEq, Eq, Structural)]
pub struct ConnectOutcome {
    /// The handle the native connect call returned; `0` means null.
    pub handle: usize,
    /// The status code the native call left in its out-parameter.
    pub status: i32,
}

/// One open connection to a printer: the exclusive owner of one non-null
/// native handle.
#[derive(Debug)]
pub struct Connection {
    handle: usize,
}

impl Connection {
    /// The native handle this connection owns.
    pub closed spec fn spec_handle(self) -> usize {
        self.handle
    }

    /// A connection is well formed when its handle is non-null. Every
    /// connection that `connect` hands out is, and nothing else builds one.
    pub open spec fn wf(self) -> bool {
        self.spec_handle() != 0
    }

    /// Connects to the printer addressed by `url`, given the raw outcome
    /// of the native connect entry point for that address.
    ///
    /// A `url` with an embedded null character is rejected with
    /// [`CupsError::InvalidInput`] whatever the outcome says: such a string
    /// never reaches the native library, so the outcome for it is
    /// meaningless and is ignored. Callers test the address with
    /// [`has_nul_char`] before making the native call for the same reason.
    /// Otherwise a non-null handle is success and the status code is
    /// discarded; a null handle is a failure classified by
    /// [`spec_connect_failure`].
    pub fn connect(url: &str, outcome: ConnectOutcome) -> (r: Result<Connection, CupsError>)
        ensures
            contains_nul(url@) ==> r == Err::<Connection, CupsError>(CupsError::InvalidInput),
            !contains_nul(url@) && outcome.handle != 0 ==> (r matches Ok(c)
                && c.spec_handle() == outcome.handle && c.wf()),
            !contains_nul(url@) && outcome.handle == 0 ==> r == Err::<Connection, CupsError>(
                spec_connect_failure(outcome.status),
            ),
    {
        if has_nul_char(url) {
            return Err(CupsError::InvalidInput);
        }
        if outcome.handle == 0 {
            if outcome.status == -1 {
                Err(CupsError::InvalidInput)
            } else if outcome.status == 0 {
                Err(CupsError::Unspecified)
            } else {
                Err(CupsError::NativeError(outcome.status))
            }
        } else {
            Ok(Connection { handle: outcome.handle })
        }
    }

    /// Submits one document to print on this connection, given the return
    /// code of the native print entry point.
    ///
    /// `data` with an embedded null character is rejected with
    /// [`CupsError::InvalidInput`] whatever `code` says: such a string
    /// never reaches the native library, so callers test the data with
    /// [`has_nul_char`] first and the code for it is ignored. Otherwise a
    /// return code of `0` is success and any other value is an
    /// operating-system error code surfaced verbatim.
    pub fn print(&self, data: &str, code: i32) -> (r: Result<(), CupsError>)
        ensures
            contains_nul(data@) ==> r == Err::<(), CupsError>(CupsError::InvalidInput),
            !contains_nul(data@) && code == 0 ==> r == Ok::<(), CupsError>(()),
            !contains_nul(data@) && code != 0 ==> r == Err::<(), CupsError>(
                CupsError::NativeError(code),
            ),
    {
        if has_nul_char(data) {
            return Err(CupsError::InvalidInput);
        }
        if code == 0 {
            Ok(())
        } else {
            Err(CupsError::NativeError(code))
        }
    }

    /// Reads the owned handle without giving up ownership, so that the
    /// native print entry point can be called on it.
    pub fn raw_handle(&self) -> (h: usize)
        ensures
            h == self.spec_handle(),
    {
        self.handle
    }

    /// Ends the connection's lifetime and hands its handle back, to be
    /// passed to the native free entry point. Consuming `self` makes a
    /// second release of the same connection impossible to write.
    pub fn release(self) -> (h: usize)
        ensures
            h == self.spec_handle(),
    {
        self.handle
    }
}

} // verus!
