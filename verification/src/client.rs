//! The session facade: the single entry point of the client.
//!
//! It owns the whole mutable session state and runs the connection
//! lifecycle as a state machine: `Disconnected -> Connecting ->
//! Authenticated`, back to `Disconnected` on failure, explicit close or
//! fatal transport error. Exec and shell operations are valid only while
//! `Authenticated`; outside it they fail immediately, without touching the
//! network -- their result provably does not depend on the outcome the
//! driver hands in. The embedding caller is expected to guard a shared
//! facade with one exclusion lock, so at most one of these operations is
//! in flight at a time; each operation below is one such serialized step.

use vstd::prelude::*;
use crate::channel::ChannelsModel;
use crate::errors::{error_text, SshError};
use crate::events::{
    classify_connect, concat_chunks, ConnectOutcome, ExecOutcome, SendOutcome,
};
use crate::session::{session_wf, with_shell, SSHSession, SessionModel};

verus! {

/// Where the facade stands in the connection lifecycle.
#[derive(Clone, Copy, Debug, PartialEq, Eq, Structural)]
pub enum ConnectionState {
    /// No transport; the initial state, and the state after any failure or close.
    Disconnected,
    /// A connect attempt is in flight: handshake, then one credential exchange.
    Connecting,
    /// The transport is up and the server accepted the credentials.
    Authenticated,
    /// A close is being carried out; the facade releases the session's
    /// resources and returns to `Disconnected` within the same operation.
    Closed,
}

/// The remote endpoint of the current connection attempt, fixed once a
/// connect succeeds and recreated on each new attempt.
pub struct Connection {
    pub host: String,
    pub port: u16,
    pub username: String,
}

/// The abstract counterpart of `Connection`.
#[verifier::ext_equal]
pub struct ConnectionModel {
    pub host: Seq<char>,
    pub port: u16,
    pub username: Seq<char>,
}

/// The abstract state of the facade: the lifecycle state, the endpoint,
/// and the session with its channels and buffered shell output.
#[verifier::ext_equal]
pub struct ClientModel {
    pub state: ConnectionState,
    pub connection: Option<ConnectionModel>,
    pub session: Option<SessionModel>,
}

/// Well-formed facade state, as it holds between operations: exactly the
/// authenticated state carries a session and an endpoint, the session is
/// itself well formed, and the transient `Connecting` and `Closed` states
/// are never observed from outside an operation.
pub open spec fn client_wf(m: ClientModel) -> bool {
    &&& (m.state is Authenticated ==> m.session is Some && m.connection is Some)
    &&& (m.session matches Some(s) ==> session_wf(s))
    &&& (!(m.state is Authenticated) ==> m.session is None && m.connection is None)
    &&& (m.state is Authenticated || m.state is Disconnected)
}

/// A port is valid when it is a positive 16-bit value.
pub open spec fn valid_port(port: i32) -> bool {
    1 <= port && port <= 65535
}

/// The facade state with no connection: the initial state, and the state
/// after a failed connect, a disconnect, or a fatal transport error.
pub open spec fn disconnected_model() -> ClientModel {
    ClientModel { state: ConnectionState::Disconnected, connection: None, session: None }
}

/// The facade state right after a successful connect: authenticated, the
/// endpoint recorded, a fresh session with no channels and nothing buffered.
pub open spec fn connected_model(host: Seq<char>, port: i32, username: Seq<char>) -> ClientModel {
    ClientModel {
        state: ConnectionState::Authenticated,
        connection: Some(ConnectionModel { host, port: port as u16, username }),
        session: Some(
            SessionModel {
                channels: ChannelsModel { exec_channel: None, shell_channel: None },
                output: Seq::empty(),
            },
        ),
    }
}

/// What `connect_ssh` does: an invalid port is rejected before any I/O and
/// any outcome is ignored; otherwise the attempt ends authenticated
/// exactly when the server accepted the credentials, and disconnected on
/// every failure. Any previous session is released first: a connect
/// recreates the connection.
pub open spec fn spec_connect(
    m: ClientModel,
    host: Seq<char>,
    port: i32,
    username: Seq<char>,
    outcome: ConnectOutcome,
) -> (ClientModel, bool) {
    if valid_port(port) && outcome is Authenticated {
        (connected_model(host, port, username), true)
    } else {
        (disconnected_model(), false)
    }
}

/// What `disconnect` does: every channel and the session are released,
/// whatever state the facade was in.
pub open spec fn spec_disconnect(m: ClientModel) -> ClientModel {
    disconnected_model()
}

/// What `is_connected` reports.
pub open spec fn spec_is_connected(m: ClientModel) -> bool {
    m.state is Authenticated
}

/// What `execute_command` does. Outside `Authenticated` it reports "not
/// connected" at once and the facade is untouched: the result does not
/// depend on the outcome, which is the model-level statement that no
/// network I/O happens. While authenticated, a completed command returns
/// exactly its combined output and leaves the facade as it was; a channel
/// or dispatch failure returns that error's text and also leaves the
/// facade as it was, so further commands can be attempted; a fatal
/// transport failure returns its text and forces the facade down.
pub open spec fn spec_execute(m: ClientModel, outcome: ExecOutcome) -> (ClientModel, Seq<char>) {
    if !(m.state is Authenticated) {
        (m, error_text(SshError::NotConnected))
    } else {
        match outcome {
            ExecOutcome::Completed(chunks) => (m, concat_chunks(chunks@)),
            ExecOutcome::ChannelOpenFailed => (m, error_text(SshError::ChannelError)),
            ExecOutcome::DispatchFailed => (m, error_text(SshError::ExecError)),
            ExecOutcome::ConnectionLost => (disconnected_model(), error_text(SshError::TransportError)),
        }
    }
}

/// The facade state with the session's shell channel ensured.
pub open spec fn client_with_shell(m: ClientModel) -> ClientModel {
    ClientModel {
        state: m.state,
        connection: m.connection,
        session: match m.session {
            Some(s) => Some(with_shell(s)),
            None => None,
        },
    }
}

/// What `send_text` does. Outside `Authenticated` it reports failure at
/// once, untouched and independent of the outcome. While authenticated the
/// shell channel is ensured on first use; the call succeeds exactly when
/// the text was written, and a fatal transport failure forces the facade
/// down.
pub open spec fn spec_send(m: ClientModel, outcome: SendOutcome) -> (ClientModel, bool) {
    if !(m.state is Authenticated) {
        (m, false)
    } else {
        match outcome {
            SendOutcome::Sent => (client_with_shell(m), true),
            SendOutcome::WriteFailed => (client_with_shell(m), false),
            SendOutcome::ChannelOpenFailed => (m, false),
            SendOutcome::ConnectionLost => (disconnected_model(), false),
        }
    }
}

/// What `read_output` does: a destructive drain of the shell buffer.
/// Absence of a connection is absence of output, so outside
/// `Authenticated` it returns the empty string rather than failing.
pub open spec fn spec_read(m: ClientModel) -> (ClientModel, Seq<char>) {
    if !(m.state is Authenticated) {
        (m, Seq::empty())
    } else {
        match m.session {
            Some(s) => (
                ClientModel {
                    state: m.state,
                    connection: m.connection,
                    session: Some(SessionModel { channels: s.channels, output: Seq::empty() }),
                },
                s.output,
            ),
            None => (m, Seq::empty()),
        }
    }
}

/// What `append_output` does: inbound shell data is buffered while a
/// session exists and dropped otherwise, since output without a connection
/// has no reader.
pub open spec fn spec_append(m: ClientModel, text: Seq<char>) -> ClientModel {
    if !(m.state is Authenticated) {
        m
    } else {
        ClientModel {
            state: m.state,
            connection: m.connection,
            session: match m.session {
                Some(s) => Some(SessionModel { channels: s.channels, output: s.output + text }),
                None => None,
            },
        }
    }
}

/// Checks a port for validity before any I/O: the driver attempts a
/// handshake only for a port this accepts, and anything else is an
/// `InvalidAddress`, rejected without touching the network.
pub fn check_port(port: i32) -> (r: Result<u16, SshError>)
    ensures
        r is Ok <==> valid_port(port),
        r matches Ok(p) ==> p == port as u16,
        r is Err ==> r == Err::<u16, SshError>(SshError::InvalidAddress),
{
    if 1 <= port && port <= 65535 {
        Ok(port as u16)
    } else {
        Err(SshError::InvalidAddress)
    }
}

/// The server-identity acceptance policy used during the handshake, which
/// also carries the credentials of the attempt. The default policy of this
/// core accepts every server key: host-key verification is delegated to
/// the embedding caller, which must substitute a stricter policy where it
/// needs one.
pub struct ClientHandler {
    password: String,
}

impl View for ClientHandler {
    type V = Seq<char>;

    closed spec fn view(&self) -> Seq<char> {
        self.password@
    }
}

impl ClientHandler {
    /// A handler holding the password of this connect attempt.
    pub fn new(password: String) -> (r: ClientHandler)
        ensures
            r@ == password@,
    {
        ClientHandler { password }
    }

    /// The password to offer in the credential exchange.
    pub fn password(&self) -> (r: &String)
        ensures
            r@ == self@,
    {
        &self.password
    }

    /// Whether to accept the server's identity key: this policy accepts
    /// every key.
    pub fn check_server_key(&self) -> (r: bool)
        ensures
            r,
    {
        true
    }
}

/// The client facade: connect, disconnect, execute, send, read, poll --
/// the complete public surface of the session layer.
pub struct SSHClient {
    state: ConnectionState,
    connection: Option<Connection>,
    session: Option<SSHSession>,
}

impl View for SSHClient {
    type V = ClientModel;

    closed spec fn view(&self) -> ClientModel {
        ClientModel {
            state: self.state,
            connection: match self.connection {
                Some(c) => Some(
                    ConnectionModel { host: c.host@, port: c.port, username: c.username@ },
                ),
                None => None,
            },
            session: match self.session {
                Some(s) => Some(s@),
                None => None,
            },
        }
    }
}

impl SSHClient {
    /// A fresh client, disconnected.
    pub fn init() -> (r: SSHClient)
        ensures
            client_wf(r@),
            r@ == disconnected_model(),
    {
        SSHClient { state: ConnectionState::Disconnected, connection: None, session: None }
    }

    /// Whether the facade is in the `Authenticated` state.
    pub fn is_connected(&self) -> (r: bool)
        ensures
            r == spec_is_connected(self@),
    {
        self.state == ConnectionState::Authenticated
    }

    /// One connect attempt: validates the port before any I/O, releases any
    /// previous session, and moves to `Authenticated` exactly when the
    /// driver's handshake and credential exchange succeeded. Returns false
    /// on every failure; the reason is carried by the outcome's error
    /// classification, not by the boolean.
    #[allow(unused_variables)]
    pub fn connect_ssh(
        &mut self,
        host: String,
        port: i32,
        username: String,
        password: String,
        outcome: ConnectOutcome,
    ) -> (r: bool)
        requires
            client_wf(old(self)@),
        ensures
            client_wf(final(self)@),
            (final(self)@, r) == spec_connect(old(self)@, host@, port, username@, outcome),
    {
        // a connect attempt recreates the connection: release what was there
        self.disconnect();
        if !(1 <= port && port <= 65535) {
            // InvalidAddress: rejected before the driver touches the network
            return false;
        }
        self.state = ConnectionState::Connecting;
        self.connection = Some(Connection { host, port: port as u16, username });
        match classify_connect(outcome) {
            None => {
                self.state = ConnectionState::Authenticated;
                self.session = Some(SSHSession::new());
                true
            },
            Some(_) => {
                // TransportError, AuthFailed or AuthError: back down, not retried
                self.state = ConnectionState::Disconnected;
                self.connection = None;
                false
            },
        }
    }

    /// Releases the session and every channel it owns and returns to
    /// `Disconnected`. Idempotent, and safe in every state.
    pub fn disconnect(&mut self)
        requires
            client_wf(old(self)@),
        ensures
            client_wf(final(self)@),
            final(self)@ == spec_disconnect(old(self)@),
    {
        match &mut self.session {
            Some(s) => {
                // close the channels first: none outlives the session
                s.close();
            },
            None => {},
        }
        self.state = ConnectionState::Closed;
        self.session = None;
        self.connection = None;
        self.state = ConnectionState::Disconnected;
    }

    /// Runs one command and returns its combined output as text. Outside
    /// `Authenticated` it returns the "not connected" text immediately,
    /// without any network exchange. A failure is reported as that error's
    /// human-readable text in the same string: the boundary deliberately
    /// collapses data and error into one value, and every error text is
    /// non-empty. A failed command leaves the session authenticated; only
    /// a fatal transport failure tears it down.
    pub fn execute_command(&mut self, command: String, outcome: ExecOutcome) -> (r: String)
        requires
            client_wf(old(self)@),
        ensures
            client_wf(final(self)@),
            (final(self)@, r@) == spec_execute(old(self)@, outcome),
    {
        if !self.is_connected() {
            return SshError::NotConnected.message();
        }
        let res = match &mut self.session {
            Some(s) => s.execute_command(command, outcome),
            None => Err(SshError::NotConnected),  // cannot happen while authenticated
        };
        match res {
            Ok(out) => out,
            Err(e) => {
                if e == SshError::TransportError {
                    // fatal transport failure: force the session down
                    self.disconnect();
                }
                e.message()
            },
        }
    }

    /// Writes text to the interactive shell, opening the persistent shell
    /// channel on first use. Returns true exactly when the text was
    /// written; false outside `Authenticated`, without any network
    /// exchange.
    pub fn send_text(&mut self, text: String, outcome: SendOutcome) -> (r: bool)
        requires
            client_wf(old(self)@),
        ensures
            client_wf(final(self)@),
            (final(self)@, r) == spec_send(old(self)@, outcome),
    {
        if !self.is_connected() {
            return false;
        }
        let res = match &mut self.session {
            Some(s) => s.send_text(text, outcome),
            None => Err(SshError::NotConnected),  // cannot happen while authenticated
        };
        match res {
            Ok(_) => true,
            Err(e) => {
                if e == SshError::TransportError {
                    // fatal transport failure: force the session down
                    self.disconnect();
                }
                false
            },
        }
    }

    /// Buffers inbound shell data: called by the driver's background read
    /// task on every data event of the shell channel.
    pub fn append_output(&mut self, text: &str)
        requires
            client_wf(old(self)@),
        ensures
            client_wf(final(self)@),
            final(self)@ == spec_append(old(self)@, text@),
    {
        if !self.is_connected() {
            return;
        }
        match &mut self.session {
            Some(s) => s.append_output(text),
            None => {},
        }
    }

    /// Returns everything the shell buffered since the previous read and
    /// clears the buffer. Never blocks, never fails: outside
    /// `Authenticated` it returns the empty string.
    pub fn read_output(&mut self) -> (r: String)
        requires
            client_wf(old(self)@),
        ensures
            client_wf(final(self)@),
            (final(self)@, r@) == spec_read(old(self)@),
    {
        if !self.is_connected() {
            return String::new();
        }
        match &mut self.session {
            Some(s) => s.read_output(),
            None => String::new(),  // cannot happen while authenticated
        }
    }
}

} // verus!
