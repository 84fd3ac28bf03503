//! A typed, lifetime-safe layer over a native socket-based messaging library.
//!
//! The native library hands out bare integer handles and reports failure
//! through sentinel return values. This crate keeps the decisions around those
//! calls: which native protocol a logical pattern maps to, when a native
//! result is a failure, what error comes out of it, and what a socket holds
//! between its creation and its release.
pub mod protocol;
pub mod result;
pub mod socket;

pub use protocol::Protocol;
pub use result::{ErrorKind, NanoError, NanoResult};
pub use socket::Socket;
