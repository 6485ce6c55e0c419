//! Verified core of a programmatic SSH client.
//!
//! The crate models the session-management layer of an SSH client: the
//! connection and authentication lifecycle, the bookkeeping of exec and
//! shell channels multiplexed over one authenticated transport, the
//! command executor that collects a command's output, and the buffered,
//! pollable output of a persistent interactive shell.
//!
//! Network I/O itself is inherently asynchronous and lives outside this
//! crate: a driver performs the handshake, authentication, channel
//! operations and reads, and hands their outcomes to the verified state
//! machine as plain values. Every decision the session makes -- which
//! state it moves to, which error it reports, what text it returns -- is
//! made here and proved against the contracts below, for every outcome
//! the network can produce.

pub mod buffer;
pub mod channel;
pub mod client;
pub mod errors;
pub mod events;
pub mod laws;
pub mod session;
