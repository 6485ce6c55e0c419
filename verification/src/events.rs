//! Outcomes that the network driver hands to the verified state machine.
//!
//! Each synchronous entry point of the session is split in two: the driver
//! performs the asynchronous protocol work (handshake, credential exchange,
//! channel open, data exchange) and condenses what happened into one of the
//! plain values below; the verified session consumes that value and is
//! proved correct for every value the driver could produce.

use vstd::prelude::*;
use crate::errors::SshError;

verus! {

/// What a connect attempt (handshake followed by one password
/// authentication exchange) came to.
#[derive(Clone, Copy, Debug, PartialEq, Eq, Structural)]
pub enum ConnectOutcome {
    /// The host was unreachable, the handshake timed out, or negotiation failed.
    TransportFailed,
    /// The handshake succeeded but the server rejected the credentials.
    AuthRejected,
    /// The handshake succeeded but the credential exchange failed at the
    /// protocol level.
    AuthProtocolError,
    /// The server accepted the credentials; the transport is authenticated.
    Authenticated,
}

/// One piece of data received on an exec channel, in arrival order.
/// Standard output and standard error are kept apart so the record says
/// which stream each piece arrived on; the executor combines them.
#[derive(Debug)]
pub enum OutputChunk {
    Stdout(String),
    Stderr(String),
}

/// What one command's end-to-end exec exchange came to.
#[derive(Debug)]
pub enum ExecOutcome {
    /// The exec channel could not be opened.
    ChannelOpenFailed,
    /// The channel opened but the command could not be dispatched on it.
    DispatchFailed,
    /// The command ran; these are the data pieces received on the channel,
    /// in arrival order, up to exit status or end of stream.
    Completed(Vec<OutputChunk>),
    /// The transport failed fatally during the exchange.
    ConnectionLost,
}

/// What one write to the interactive shell channel came to.
#[derive(Clone, Copy, Debug, PartialEq, Eq, Structural)]
pub enum SendOutcome {
    /// The shell channel could not be opened on first use.
    ChannelOpenFailed,
    /// The shell channel is open but the write failed.
    WriteFailed,
    /// The text was written to the shell's input stream.
    Sent,
    /// The transport failed fatally during the write.
    ConnectionLost,
}

/// The text a chunk carries, whichever stream it arrived on.
pub open spec fn chunk_text(c: OutputChunk) -> Seq<char> {
    match c {
        OutputChunk::Stdout(s) => s@,
        OutputChunk::Stderr(s) => s@,
    }
}

/// The concatenation of the texts of the first `n` chunks, in order.
pub open spec fn concat_chunks_prefix(chunks: Seq<OutputChunk>, n: int) -> Seq<char>
    decreases n,
{
    if n <= 0 {
        Seq::empty()
    } else {
        concat_chunks_prefix(chunks, n - 1) + chunk_text(chunks[n - 1])
    }
}

/// The combined output of a command: every chunk's text, concatenated in
/// arrival order.
pub open spec fn concat_chunks(chunks: Seq<OutputChunk>) -> Seq<char> {
    concat_chunks_prefix(chunks, chunks.len() as int)
}

/// Combined output contains every chunk in full: it is at least as long as
/// any one chunk's text, so a command that produced output never combines
/// to the empty string.
pub proof fn lemma_concat_chunks_covers(chunks: Seq<OutputChunk>, k: int)
    requires
        0 <= k < chunks.len(),
    ensures
        concat_chunks(chunks).len() >= chunk_text(chunks[k]).len(),
{
    lemma_concat_prefix_covers(chunks, k, chunks.len() as int);
}

proof fn lemma_concat_prefix_covers(chunks: Seq<OutputChunk>, k: int, n: int)
    requires
        0 <= k < n <= chunks.len(),
    ensures
        concat_chunks_prefix(chunks, n).len() >= chunk_text(chunks[k]).len(),
    decreases n,
{
    if k < n - 1 {
        lemma_concat_prefix_covers(chunks, k, n - 1);
    }
}

/// The error a failed connect outcome maps to, `None` on success: the
/// decision rule of the authenticator.
pub open spec fn connect_error(outcome: ConnectOutcome) -> Option<SshError> {
    match outcome {
        ConnectOutcome::TransportFailed => Some(SshError::TransportError),
        ConnectOutcome::AuthRejected => Some(SshError::AuthFailed),
        ConnectOutcome::AuthProtocolError => Some(SshError::AuthError),
        ConnectOutcome::Authenticated => None,
    }
}

/// Classifies a connect outcome: the error it stands for, or `None` when
/// the server accepted the credentials.
pub fn classify_connect(outcome: ConnectOutcome) -> (r: Option<SshError>)
    ensures
        r == connect_error(outcome),
        r is None <==> outcome is Authenticated,
{
    match outcome {
        ConnectOutcome::TransportFailed => Some(SshError::TransportError),
        ConnectOutcome::AuthRejected => Some(SshError::AuthFailed),
        ConnectOutcome::AuthProtocolError => Some(SshError::AuthError),
        ConnectOutcome::Authenticated => None,
    }
}

} // verus!
