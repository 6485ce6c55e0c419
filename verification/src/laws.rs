//! The behavioural laws of the session layer, proved over the abstract
//! transitions that the facade's contracts are stated in.

use vstd::prelude::*;
use crate::client::{
    client_wf, spec_connect, spec_disconnect, spec_execute, spec_is_connected, spec_read,
    valid_port, ClientModel,
};
use crate::errors::{error_text, lemma_error_text_nonempty, SshError};
use crate::events::{
    chunk_text, concat_chunks, lemma_concat_chunks_covers, ConnectOutcome, ExecOutcome,
};

verus! {

/// Connecting with a valid endpoint against a server that accepts the
/// credentials succeeds and makes the client connected; disconnecting then
/// makes it disconnected. Any other outcome of the attempt fails and
/// leaves the client disconnected.
pub proof fn lemma_connect_lifecycle(
    m: ClientModel,
    host: Seq<char>,
    port: i32,
    username: Seq<char>,
    outcome: ConnectOutcome,
)
    requires
        client_wf(m),
        valid_port(port),
    ensures
        ({
            let (m1, ok) = spec_connect(m, host, port, username, outcome);
            &&& ok <==> outcome is Authenticated
            &&& (outcome is Authenticated ==> spec_is_connected(m1))
            &&& (!(outcome is Authenticated) ==> !spec_is_connected(m1))
            &&& !spec_is_connected(spec_disconnect(m1))
        }),
{
}

/// A command executed while authenticated either returns exactly the
/// combined output the remote side produced -- so a command that produced
/// output is never answered with a silently empty string -- or a non-empty
/// error text.
pub proof fn lemma_execute_faithful_output(m: ClientModel, outcome: ExecOutcome)
    requires
        client_wf(m),
        spec_is_connected(m),
    ensures
        ({
            let (m1, out) = spec_execute(m, outcome);
            &&& (outcome matches ExecOutcome::Completed(chunks) ==> out == concat_chunks(chunks@))
            &&& (outcome matches ExecOutcome::Completed(chunks) ==> forall|k: int|
                0 <= k < chunks@.len() ==> out.len() >= chunk_text(chunks@[k]).len())
            &&& (!(outcome is Completed) ==> out.len() > 0)
        }),
{
    lemma_error_text_nonempty(SshError::ChannelError);
    lemma_error_text_nonempty(SshError::ExecError);
    lemma_error_text_nonempty(SshError::TransportError);
    if let ExecOutcome::Completed(chunks) = outcome {
        assert forall|k: int| 0 <= k < chunks@.len() implies concat_chunks(chunks@).len()
            >= chunk_text(chunks@[k]).len() by {
            lemma_concat_chunks_covers(chunks@, k);
        }
    }
}

/// A command executed while disconnected is answered immediately with the
/// "not connected" text and the client untouched; the answer does not
/// depend on anything the network could have said, which is the
/// model-level form of "no network I/O is performed".
pub proof fn lemma_execute_disconnected_no_network(
    m: ClientModel,
    outcome_a: ExecOutcome,
    outcome_b: ExecOutcome,
)
    requires
        client_wf(m),
        !spec_is_connected(m),
    ensures
        spec_execute(m, outcome_a) == spec_execute(m, outcome_b),
        spec_execute(m, outcome_a).0 == m,
        spec_execute(m, outcome_a).1 == error_text(SshError::NotConnected),
        spec_execute(m, outcome_a).1.len() > 0,
{
    lemma_error_text_nonempty(SshError::NotConnected);
}

/// Draining the shell output is destructive and loses nothing: one read
/// returns everything buffered, and a second read with nothing appended in
/// between returns the empty string and changes nothing further.
pub proof fn lemma_read_output_drains_once(m: ClientModel)
    requires
        client_wf(m),
    ensures
        ({
            let (m1, first) = spec_read(m);
            let (m2, second) = spec_read(m1);
            &&& (spec_is_connected(m) ==> (m.session matches Some(s) ==> first == s.output))
            &&& second == Seq::<char>::empty()
            &&& m2 == m1
        }),
{
    let (m1, first) = spec_read(m);
    let (m2, second) = spec_read(m1);
    assert(m2 =~= m1);
}

/// Disconnecting is idempotent: a second disconnect changes nothing and is
/// no error, and the client reports disconnected both times.
pub proof fn lemma_disconnect_idempotent(m: ClientModel)
    ensures
        spec_disconnect(spec_disconnect(m)) == spec_disconnect(m),
        !spec_is_connected(spec_disconnect(m)),
        !spec_is_connected(spec_disconnect(spec_disconnect(m))),
{
}

/// Two commands run one after the other -- the order the facade's
/// exclusion lock imposes on concurrent callers -- each get exactly their
/// own command's output, with no interleaving of the two, and the client
/// stays connected throughout.
pub proof fn lemma_execute_serialized(
    m: ClientModel,
    outcome_a: ExecOutcome,
    outcome_b: ExecOutcome,
)
    requires
        client_wf(m),
        spec_is_connected(m),
        outcome_a is Completed,
        outcome_b is Completed,
    ensures
        ({
            let (m1, out_a) = spec_execute(m, outcome_a);
            let (m2, out_b) = spec_execute(m1, outcome_b);
            &&& (outcome_a matches ExecOutcome::Completed(chunks) ==> out_a == concat_chunks(
                chunks@,
            ))
            &&& (outcome_b matches ExecOutcome::Completed(chunks) ==> out_b == concat_chunks(
                chunks@,
            ))
            &&& m1 == m
            &&& m2 == m
            &&& spec_is_connected(m2)
        }),
{
}

} // verus!
