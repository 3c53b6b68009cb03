//! A small safety layer around a native printing library's C interface.
//!
//! The native library hands back raw results: an opaque handle that may be
//! null, and an out-of-band status code. This crate owns the handle in a
//! [`conn::Connection`] value, validates caller strings before they cross
//! the native boundary, and translates the raw results into structured
//! [`error::CupsError`] values. The native calls themselves happen outside
//! the library; it receives their raw outcomes as plain values and decides
//! everything else.

pub mod conn;
pub mod error;
pub mod text;

pub use conn::ConnectOutcome;
pub use conn::Connection;
pub use error::CupsError;
pub use text::has_nul_char;
