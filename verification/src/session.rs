//! One authenticated session: its channels and its shell output buffer.
//!
//! The session owns the command executor (one ephemeral exec channel per
//! command, output collected in arrival order, channel closed before the
//! result is returned) and the interactive shell adapter (one persistent
//! shell channel, an append-only output buffer, destructive non-blocking
//! drain). The network exchanges themselves happen in the driver; their
//! outcomes arrive here as plain values, and every clause below holds for
//! every outcome the driver could hand in.

use vstd::prelude::*;
use crate::buffer::{push_chars, OutputBuffer};
use crate::channel::{
    channels_wf, close_all_channels, Channel, ChannelKind, ChannelManager, ChannelStatus,
    ChannelsModel,
};
use crate::errors::SshError;
use crate::events::{concat_chunks, concat_chunks_prefix, ExecOutcome, OutputChunk, SendOutcome};

verus! {

/// The abstract state of a session: which channels it holds, and what
/// shell output has accumulated since the last drain.
#[verifier::ext_equal]
pub struct SessionModel {
    pub channels: ChannelsModel,
    pub output: Seq<char>,
}

/// A session is well formed when its channel state is, and no exec channel
/// is held between operations: the executor opens its channel and closes it
/// again within one call.
pub open spec fn session_wf(m: SessionModel) -> bool {
    &&& channels_wf(m.channels)
    &&& m.channels.exec_channel is None
}

/// The session state after the shell channel has been ensured: an existing
/// shell channel is reused, otherwise the one shell channel of the
/// session's lifetime is opened.
pub open spec fn with_shell(m: SessionModel) -> SessionModel {
    if m.channels.shell_channel is Some {
        m
    } else {
        SessionModel {
            channels: ChannelsModel {
                exec_channel: m.channels.exec_channel,
                shell_channel: Some(Channel {
                    kind: ChannelKind::Shell,
                    id: 0,
                    status: ChannelStatus::Open,
                }),
            },
            output: m.output,
        }
    }
}

/// The authenticated transport handle of one connection: created on
/// successful authentication, destroyed on disconnect or on a fatal
/// protocol error.
pub struct SSHSession {
    channels: ChannelManager,
    output: OutputBuffer,
}

impl View for SSHSession {
    type V = SessionModel;

    closed spec fn view(&self) -> SessionModel {
        SessionModel { channels: self.channels@, output: self.output@ }
    }
}

/// Combines a command's received data into one output string: every
/// chunk's text, whichever stream it arrived on, concatenated in arrival
/// order. No chunk is dropped and none is reordered.
pub fn combine_chunks(chunks: &Vec<OutputChunk>) -> (r: String)
    ensures
        r@ == concat_chunks(chunks@),
{
    let mut out = String::new();
    let mut i: usize = 0;
    while i < chunks.len()
        invariant
            i <= chunks.len(),
            out@ == concat_chunks_prefix(chunks@, i as int),
        decreases chunks.len() - i,
    {
        match &chunks[i] {
            OutputChunk::Stdout(s) => push_chars(&mut out, s.as_str()),
            OutputChunk::Stderr(s) => push_chars(&mut out, s.as_str()),
        }
        i = i + 1;
    }
    out
}

impl SSHSession {
    /// A fresh session: no channels yet, nothing buffered.
    pub fn new() -> (r: SSHSession)
        ensures
            session_wf(r@),
            r@.channels.shell_channel is None,
            r@.output == Seq::<char>::empty(),
    {
        SSHSession { channels: ChannelManager::new(), output: OutputBuffer::new() }
    }

    /// Runs one command end to end: opens the session's one exec channel,
    /// has the driver dispatch the command and collect what arrived, closes
    /// the channel again, and returns the combined output. The session is
    /// left exactly as it was, whatever the outcome: a failed command does
    /// not cost the caller the session.
    pub fn execute_command(&mut self, _command: String, outcome: ExecOutcome) -> (r: Result<
        String,
        SshError,
    >)
        requires
            session_wf(old(self)@),
        ensures
            session_wf(final(self)@),
            final(self)@ == old(self)@,
            r is Ok <==> outcome is Completed,
            outcome matches ExecOutcome::Completed(chunks) ==> (r matches Ok(out) && out@
                == concat_chunks(chunks@)),
            outcome is ChannelOpenFailed ==> r == Err::<String, SshError>(SshError::ChannelError),
            outcome is DispatchFailed ==> r == Err::<String, SshError>(SshError::ExecError),
            outcome is ConnectionLost ==> r == Err::<String, SshError>(SshError::TransportError),
    {
        let id = match self.channels.open_exec() {
            Ok(id) => id,
            // cannot happen between operations: no exec channel is held then
            Err(e) => {
                return Err(e);
            },
        };
        match outcome {
            ExecOutcome::ChannelOpenFailed => {
                self.channels.close(id);
                Err(SshError::ChannelError)
            },
            ExecOutcome::DispatchFailed => {
                self.channels.close(id);
                Err(SshError::ExecError)
            },
            ExecOutcome::ConnectionLost => {
                self.channels.close(id);
                Err(SshError::TransportError)
            },
            ExecOutcome::Completed(chunks) => {
                let text = combine_chunks(&chunks);
                self.channels.close(id);
                Ok(text)
            },
        }
    }

    /// Writes text to the interactive shell. On first use this opens the
    /// session's one persistent shell channel; later writes reuse it. The
    /// write does not wait for a response: output is collected separately
    /// and polled through `read_output`.
    pub fn send_text(&mut self, _text: String, outcome: SendOutcome) -> (r: Result<(), SshError>)
        requires
            session_wf(old(self)@),
        ensures
            session_wf(final(self)@),
            final(self)@.output == old(self)@.output,
            r is Ok <==> outcome is Sent,
            outcome is ChannelOpenFailed ==> (r == Err::<(), SshError>(SshError::ChannelError)
                && final(self)@ == old(self)@),
            outcome is Sent ==> (r == Ok::<(), SshError>(())
                && final(self)@ == with_shell(old(self)@)),
            outcome is WriteFailed ==> (r == Err::<(), SshError>(SshError::SendError)
                && final(self)@ == with_shell(old(self)@)),
            outcome is ConnectionLost ==> (r == Err::<(), SshError>(SshError::TransportError)
                && final(self)@ == with_shell(old(self)@)),
    {
        match outcome {
            SendOutcome::ChannelOpenFailed => Err(SshError::ChannelError),
            SendOutcome::Sent => {
                let _shell_id: u64 = self.channels.open_shell();
                Ok(())
            },
            SendOutcome::WriteFailed => {
                let _shell_id: u64 = self.channels.open_shell();
                Err(SshError::SendError)
            },
            SendOutcome::ConnectionLost => {
                let _shell_id: u64 = self.channels.open_shell();
                Err(SshError::TransportError)
            },
        }
    }

    /// Appends inbound shell data to the output buffer: the producer half
    /// of the shell adapter, driven on every data event the shell channel
    /// receives. Nothing already buffered is lost.
    pub fn append_output(&mut self, text: &str)
        requires
            session_wf(old(self)@),
        ensures
            session_wf(final(self)@),
            final(self)@.channels == old(self)@.channels,
            final(self)@.output == old(self)@.output + text@,
    {
        self.output.append(text);
    }

    /// Returns everything the shell buffered since the previous drain and
    /// clears the buffer, in one step. Never blocks and never fails.
    pub fn read_output(&mut self) -> (r: String)
        requires
            session_wf(old(self)@),
        ensures
            session_wf(final(self)@),
            final(self)@.channels == old(self)@.channels,
            r@ == old(self)@.output,
            final(self)@.output == Seq::<char>::empty(),
    {
        self.output.drain()
    }

    /// Closes the session's channels: no channel outlives its session.
    pub fn close(&mut self)
        requires
            session_wf(old(self)@),
        ensures
            session_wf(final(self)@),
            final(self)@.channels == close_all_channels(old(self)@.channels),
            final(self)@.output == old(self)@.output,
    {
        self.channels.close_all();
    }
}

} // verus!
