//! The fixed settings of a session.

use vstd::prelude::*;

verus! {

/// The character that marks a line as a local command.
pub const SIGIL: char = '/';

/// The port of the backend on the local host.
pub const BACKEND_PORT: u16 = 5001;

/// How often the consumer polls for events, in milliseconds.
pub const POLL_INTERVAL_MS: u32 = 100;

/// The first wait before subscribing again, in milliseconds.
pub const RETRY_BASE_MS: u64 = 250;

/// The longest wait before subscribing again, in milliseconds.
pub const RETRY_MAX_MS: u64 = 30000;

/// The address of the backend: the local host.
pub fn backend_host() -> (host: &'static str)
    ensures
        host@ == "127.0.0.1"@,
{
    "127.0.0.1"
}

/// The one topic that a session publishes to and subscribes to.
pub fn topic() -> (name: &'static str)
    ensures
        name@ == "chat"@,
{
    "chat"
}

} // verus!
