//! Bookkeeping of the logical channels multiplexed over one session.
//!
//! A session has at most one short-lived exec channel at a time (one per
//! command, closed when the command's output has been collected) and at
//! most one persistent shell channel for its whole lifetime (later shell
//! requests reuse it). Closing is idempotent, and closing the session
//! closes everything.

use vstd::prelude::*;
use crate::errors::SshError;

verus! {

/// Which protocol role a channel plays.
#[derive(Clone, Copy, Debug, PartialEq, Eq, Structural)]
pub enum ChannelKind {
    /// Carries one command's execution and its output, then closes.
    Exec,
    /// Carries the persistent interactive shell's input and output.
    Shell,
}

/// Where a channel stands in its lifecycle.
#[derive(Clone, Copy, Debug, PartialEq, Eq, Structural)]
pub enum ChannelStatus {
    Open,
    /// A close has been requested but not yet observed complete.
    Closing,
    Closed,
}

/// One logical channel: its role, an opaque handle the driver maps to the
/// transport's own channel, and its lifecycle status.
#[derive(Clone, Copy, Debug, PartialEq, Eq, Structural)]
pub struct Channel {
    pub kind: ChannelKind,
    pub id: u64,
    pub status: ChannelStatus,
}

/// The abstract state of the channel manager: one slot per channel kind,
/// which is exactly the "one active channel per kind" rule.
#[verifier::ext_equal]
pub struct ChannelsModel {
    pub exec_channel: Option<Channel>,
    pub shell_channel: Option<Channel>,
}

/// Tracks the channels of one session: at most one exec channel, at most
/// one shell channel.
pub struct ChannelManager {
    exec_channel: Option<Channel>,
    shell_channel: Option<Channel>,
}

impl View for ChannelManager {
    type V = ChannelsModel;

    closed spec fn view(&self) -> ChannelsModel {
        ChannelsModel { exec_channel: self.exec_channel, shell_channel: self.shell_channel }
    }
}

/// Well-formed channel state: each slot holds a channel of its own kind,
/// an exec channel is only ever held open, and the two ids differ.
pub open spec fn channels_wf(m: ChannelsModel) -> bool {
    &&& (m.exec_channel matches Some(c) ==> c.kind is Exec && c.status is Open)
    &&& (m.shell_channel matches Some(c) ==> c.kind is Shell)
    &&& (m.exec_channel matches Some(e) ==> (m.shell_channel matches Some(s) ==> e.id != s.id))
}

/// The channel state after closing the channel with handle `id`: an exec
/// channel is ephemeral and leaves the table; the shell channel persists,
/// marked closed. A handle no open channel bears changes nothing.
pub open spec fn close_channel(m: ChannelsModel, id: u64) -> ChannelsModel {
    ChannelsModel {
        exec_channel: match m.exec_channel {
            Some(c) => if c.id == id { None } else { Some(c) },
            None => None,
        },
        shell_channel: match m.shell_channel {
            Some(c) => if c.id == id {
                Some(Channel { kind: c.kind, id: c.id, status: ChannelStatus::Closed })
            } else {
                Some(c)
            },
            None => None,
        },
    }
}

/// The channel state after the session itself closes: the exec channel is
/// gone and the shell channel, if one was ever opened, is closed.
pub open spec fn close_all_channels(m: ChannelsModel) -> ChannelsModel {
    ChannelsModel {
        exec_channel: None,
        shell_channel: match m.shell_channel {
            Some(c) => Some(Channel { kind: c.kind, id: c.id, status: ChannelStatus::Closed }),
            None => None,
        },
    }
}

/// Closing a channel is idempotent: closing the same handle again changes
/// nothing, and is never an error.
pub proof fn lemma_close_channel_idempotent(m: ChannelsModel, id: u64)
    ensures
        close_channel(close_channel(m, id), id) == close_channel(m, id),
{
}

impl ChannelManager {
    /// A manager with no channels.
    pub fn new() -> (r: ChannelManager)
        ensures
            r@.exec_channel is None,
            r@.shell_channel is None,
            channels_wf(r@),
    {
        ChannelManager { exec_channel: None, shell_channel: None }
    }

    /// Opens the session's one exec channel. Fails, touching nothing, if an
    /// exec channel is already open: at most one command runs at a time.
    pub fn open_exec(&mut self) -> (r: Result<u64, SshError>)
        requires
            channels_wf(old(self)@),
        ensures
            channels_wf(final(self)@),
            r is Ok <==> old(self)@.exec_channel is None,
            r matches Ok(id) ==> final(self)@ == (ChannelsModel {
                exec_channel: Some(Channel { kind: ChannelKind::Exec, id, status: ChannelStatus::Open }),
                shell_channel: old(self)@.shell_channel,
            }),
            r matches Err(e) ==> e == SshError::ChannelError && final(self)@ == old(self)@,
    {
        match self.exec_channel {
            Some(_) => Err(SshError::ChannelError),
            None => {
                let id: u64 = match &self.shell_channel {
                    Some(c) => if c.id == 0 { 1 } else { 0 },
                    None => 0,
                };
                self.exec_channel = Some(Channel { kind: ChannelKind::Exec, id, status: ChannelStatus::Open });
                Ok(id)
            }
        }
    }

    /// Opens the session's one shell channel, or returns the existing one:
    /// the shell channel is singular for the session's whole lifetime.
    pub fn open_shell(&mut self) -> (r: u64)
        requires
            channels_wf(old(self)@),
        ensures
            channels_wf(final(self)@),
            final(self)@.exec_channel == old(self)@.exec_channel,
            old(self)@.shell_channel matches Some(c) ==> final(self)@ == old(self)@ && r == c.id,
            old(self)@.shell_channel is None ==> final(self)@.shell_channel == Some(Channel {
                kind: ChannelKind::Shell,
                id: r,
                status: ChannelStatus::Open,
            }),
            (old(self)@.shell_channel is None && old(self)@.exec_channel is None) ==> r == 0,
    {
        match &self.shell_channel {
            Some(c) => c.id,
            None => {
                let id: u64 = match &self.exec_channel {
                    Some(c) => if c.id == 0 { 1 } else { 0 },
                    None => 0,
                };
                self.shell_channel = Some(Channel { kind: ChannelKind::Shell, id, status: ChannelStatus::Open });
                id
            }
        }
    }

    /// Closes the channel with handle `id`. Idempotent: a handle that is
    /// already closed, or was never open, is a no-op, never an error.
    pub fn close(&mut self, id: u64)
        requires
            channels_wf(old(self)@),
        ensures
            channels_wf(final(self)@),
            final(self)@ == close_channel(old(self)@, id),
    {
        match self.exec_channel {
            Some(c) => {
                if c.id == id {
                    self.exec_channel = None;
                }
            }
            None => {}
        }
        match self.shell_channel {
            Some(c) => {
                if c.id == id {
                    self.shell_channel = Some(Channel { kind: c.kind, id: c.id, status: ChannelStatus::Closed });
                }
            }
            None => {}
        }
    }

    /// Closes every channel: called when the session itself goes away, so
    /// no channel outlives its session.
    pub fn close_all(&mut self)
        requires
            channels_wf(old(self)@),
        ensures
            channels_wf(final(self)@),
            final(self)@ == close_all_channels(old(self)@),
    {
        self.exec_channel = None;
        match self.shell_channel {
            Some(c) => {
                self.shell_channel = Some(Channel { kind: c.kind, id: c.id, status: ChannelStatus::Closed });
            }
            None => {}
        }
    }
}

} // verus!
