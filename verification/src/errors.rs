//! The failure taxonomy of the session layer.

use vstd::prelude::*;

verus! {

/// Every way a session operation can fail. The public boundary collapses
/// these into booleans or human-readable strings; internally each failing
/// operation reports exactly one of these variants.
#[derive(Clone, Copy, Debug, PartialEq, Eq, Structural)]
pub enum SshError {
    /// The port was not a valid positive 16-bit value; rejected before any I/O.
    InvalidAddress,
    /// The handshake failed, or the connection to the server was lost.
    TransportError,
    /// The server rejected the credentials.
    AuthFailed,
    /// The credential exchange itself failed at the protocol level.
    AuthError,
    /// A channel could not be opened.
    ChannelError,
    /// A command could not be dispatched on its exec channel.
    ExecError,
    /// An operation that needs an authenticated session found none.
    NotConnected,
    /// Text could not be written to the shell channel.
    SendError,
}

/// The text that `SshError::message` returns for each variant.
pub open spec fn error_text(e: SshError) -> Seq<char> {
    match e {
        SshError::InvalidAddress => "invalid address: port must be between 1 and 65535"@,
        SshError::TransportError => "transport error: the connection failed or was lost"@,
        SshError::AuthFailed => "authentication failed: the server rejected the credentials"@,
        SshError::AuthError => "authentication error: the credential exchange failed"@,
        SshError::ChannelError => "channel error: the channel could not be opened"@,
        SshError::ExecError => "exec error: the command could not be dispatched"@,
        SshError::NotConnected => "not connected"@,
        SshError::SendError => "send error: the text could not be written to the shell"@,
    }
}

/// No error ever collapses to an empty string, so error text is always
/// distinguishable from the empty output of a command that printed nothing.
pub proof fn lemma_error_text_nonempty(e: SshError)
    ensures
        error_text(e).len() > 0,
{
    reveal_strlit("invalid address: port must be between 1 and 65535");
    reveal_strlit("transport error: the connection failed or was lost");
    reveal_strlit("authentication failed: the server rejected the credentials");
    reveal_strlit("authentication error: the credential exchange failed");
    reveal_strlit("channel error: the channel could not be opened");
    reveal_strlit("exec error: the command could not be dispatched");
    reveal_strlit("not connected");
    reveal_strlit("send error: the text could not be written to the shell");
}

impl SshError {
    /// The human-readable description of this error, for the boundary that
    /// reports failures as plain text.
    pub fn message(&self) -> (r: String)
        ensures
            r@ == error_text(*self),
            r@.len() > 0,
    {
        proof {
            lemma_error_text_nonempty(*self);
        }
        match self {
            SshError::InvalidAddress => "invalid address: port must be between 1 and 65535".to_owned(),
            SshError::TransportError => "transport error: the connection failed or was lost".to_owned(),
            SshError::AuthFailed => "authentication failed: the server rejected the credentials".to_owned(),
            SshError::AuthError => "authentication error: the credential exchange failed".to_owned(),
            SshError::ChannelError => "channel error: the channel could not be opened".to_owned(),
            SshError::ExecError => "exec error: the command could not be dispatched".to_owned(),
            SshError::NotConnected => "not connected".to_owned(),
            SshError::SendError => "send error: the text could not be written to the shell".to_owned(),
        }
    }
}

} // verus!
