//! Error taxonomy of the coordination core.
//!
//! Connectivity errors are recoverable at the granularity of one connection,
//! protocol errors are fatal for the connection that produced them,
//! synchronization and backend errors fail a single command, and the stale
//! shared-memory collision is recovered from at most once.

use vstd::prelude::*;

verus! {

#[derive(Clone, Copy, Debug, PartialEq, Eq, Structural)]
pub enum IpcError {
    /// A name does not fit its fixed-size buffer with a terminator.
    NameTooLong,
    /// A name buffer holds no terminating zero byte.
    NoTerminator,
    /// An envelope had the wrong number of bytes.
    BadLength,
    /// An envelope carried a tag outside the closed command set.
    UnknownTag,
    /// An envelope carried a pixel-format code outside the closed set.
    UnknownFormat,
    /// A peer answered a command with an envelope of the wrong kind.
    UnexpectedResult,
    /// A blocking operation did not finish within its configured timeout.
    Timeout,
    /// The peer closed its end of the channel.
    ConnectionClosed,
    /// A shared-record lock could not be taken within the timeout.
    LockTimeout,
    /// A shared-memory segment name collided twice in a row.
    ShmemCollision,
    /// The shared-memory mapping could not be created or opened.
    ShmemSetup,
    /// The record layout of an opened segment disagrees with the creator's.
    LayoutMismatch,
    /// The graphics backend failed to create, resize or export a resource.
    Backend,
}

impl IpcError {
    /// Human-readable name of the error, for logs and messages.
    pub fn describe(&self) -> (r: &'static str) {
        match self {
            IpcError::NameTooLong => "name too long",
            IpcError::NoTerminator => "name buffer has no terminator",
            IpcError::BadLength => "envelope size mismatch",
            IpcError::UnknownTag => "unknown command tag",
            IpcError::UnknownFormat => "unknown pixel format",
            IpcError::UnexpectedResult => "result does not match command",
            IpcError::Timeout => "operation timed out",
            IpcError::ConnectionClosed => "connection closed by peer",
            IpcError::LockTimeout => "shared record lock timed out",
            IpcError::ShmemCollision => "shared memory name collision",
            IpcError::ShmemSetup => "shared memory setup failed",
            IpcError::LayoutMismatch => "shared record layout mismatch",
            IpcError::Backend => "graphics backend failure",
        }
    }
}

} // verus!
