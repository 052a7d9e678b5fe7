//! The session with Discord as a state machine.
//!
//! The client decides and never touches a socket: the caller connects,
//! writes and reads, and tells the client what came of it. A session starts
//! `Idle`, is `Handshaking` from the start of the endpoint scan until the
//! handshake is written, is `Ready` from then on, and ends `Closed`.

use vstd::prelude::*;
use crate::activity::Activity;
use crate::endpoint::candidate_paths;
use crate::endpoint::endpoint_paths;
use crate::endpoint::Environment;
use crate::error::IpcError;
use crate::frame::Opcode;
use crate::message::close_json;
use crate::message::close_payload;
use crate::message::encode_message;
use crate::message::frame_view;
use crate::message::handshake_json;
use crate::message::handshake_payload;
use crate::message::message_frame;
use crate::message::set_activity_json;
use crate::message::set_activity_payload;

verus! {

/// Where a session stands.
#[derive(Clone, Copy, Debug, PartialEq, Eq, Structural)]
pub enum State {
    /// Nothing has happened yet; `begin_connect` is the way on.
    Idle,
    /// An endpoint is looked for, or found and the handshake not yet written.
    Handshaking,
    /// The handshake is written; activities may be sent.
    Ready,
    /// The session is over.
    Closed,
}

/// The client's side of one session.
#[derive(Debug)]
pub struct DiscordIpcClient {
    client_id: String,
    state: State,
    connected: bool,
    candidates: Vec<String>,
    next: usize,
}

/// What the caller has to do to close the connection.
#[derive(Debug)]
pub struct ClosePlan {
    /// The frame that tells Discord that the session ends, to be written
    /// first; a failure to write it changes nothing.
    pub courtesy: Option<Vec<u8>>,
    /// Whether there is a connection to flush and to shut down.
    pub shutdown: bool,
}

/// What a [`DiscordIpcClient`] holds.
pub struct ClientView {
    pub client_id: Seq<char>,
    pub state: State,
    /// Whether a connection is live.
    pub connected: bool,
    /// The endpoints that are still to be tried, the next one first.
    pub pending: Seq<Seq<char>>,
}

impl ClientView {
    /// The client before anything has happened.
    pub open spec fn fresh(client_id: Seq<char>) -> ClientView {
        ClientView { client_id, state: State::Idle, connected: false, pending: Seq::empty() }
    }

    /// The client at the start of the endpoint scan for `env`.
    pub open spec fn connecting(self, env: Map<Seq<char>, Seq<char>>) -> ClientView {
        ClientView {
            state: State::Handshaking,
            connected: false,
            pending: endpoint_paths(env),
            ..self
        }
    }

    /// Whether an endpoint is being looked for.
    pub open spec fn scanning(self) -> bool {
        self.state == State::Handshaking && !self.connected && self.pending.len() > 0
    }

    /// The client after the endpoint that was tried has refused: the scan
    /// goes on with the next one, and with none left the client is back at
    /// the start.
    pub open spec fn after_refusal(self) -> ClientView {
        if !self.scanning() {
            self
        } else if self.pending.len() == 1 {
            ClientView { state: State::Idle, pending: Seq::empty(), ..self }
        } else {
            ClientView { pending: self.pending.drop_first(), ..self }
        }
    }

    /// What the caller is told after a refusal.
    pub open spec fn refusal_result(self) -> Result<(), IpcError> {
        if !self.scanning() {
            Err(IpcError::NotConnected)
        } else if self.pending.len() == 1 {
            Err(IpcError::EndpointUnreachable)
        } else {
            Ok(())
        }
    }

    /// The client after `n` refusals in a row.
    pub open spec fn after_refusals(self, n: nat) -> ClientView
        decreases n,
    {
        if n == 0 {
            self
        } else {
            self.after_refusal().after_refusals((n - 1) as nat)
        }
    }

    /// The client after the endpoint that was tried has accepted: the
    /// connection is live and the other endpoints are given up.
    pub open spec fn after_acceptance(self) -> ClientView {
        if self.scanning() {
            ClientView { connected: true, pending: Seq::empty(), ..self }
        } else {
            self
        }
    }

    /// Whether bytes may be written to or read from the connection.
    pub open spec fn may_transfer(self) -> Result<(), IpcError> {
        if self.connected {
            Ok(())
        } else {
            Err(IpcError::NotConnected)
        }
    }

    /// Whether the handshake is due.
    pub open spec fn may_shake_hands(self) -> bool {
        self.state == State::Handshaking && self.connected
    }

    /// Whether activities may be sent.
    pub open spec fn may_send(self) -> bool {
        self.state == State::Ready && self.connected
    }

    /// The client after a frame was handed to the connection. A failed
    /// write ends the session; the written handshake makes it ready.
    pub open spec fn after_write(self, written: bool) -> ClientView {
        if !self.connected {
            self
        } else if !written {
            self.after_close()
        } else if self.state == State::Handshaking {
            ClientView { state: State::Ready, ..self }
        } else {
            self
        }
    }

    /// What the caller is told after a write or a read.
    pub open spec fn transfer_result(self, done: bool) -> Result<(), IpcError> {
        if !self.connected {
            Err(IpcError::NotConnected)
        } else if !done {
            Err(IpcError::Io)
        } else {
            Ok(())
        }
    }

    /// The client after a read from the connection: one that failed ends the
    /// session, as a failed write does.
    pub open spec fn after_read(self, received: bool) -> ClientView {
        if self.connected && !received {
            self.after_close()
        } else {
            self
        }
    }

    /// The client after `close`.
    pub open spec fn after_close(self) -> ClientView {
        ClientView { state: State::Closed, connected: false, pending: Seq::empty(), ..self }
    }

    /// A connection is live only while the handshake is due or done.
    pub open spec fn consistent(self) -> bool {
        self.connected ==> self.state == State::Handshaking || self.state == State::Ready
    }
}

/// What is left of `candidates` from `next` on.
pub open spec fn pending_from(candidates: Seq<Seq<char>>, next: int) -> Seq<Seq<char>> {
    if 0 <= next <= candidates.len() {
        candidates.skip(next)
    } else {
        Seq::empty()
    }
}

impl View for DiscordIpcClient {
    type V = ClientView;

    closed spec fn view(&self) -> ClientView {
        ClientView {
            client_id: self.client_id@,
            state: self.state,
            connected: self.connected,
            pending: pending_from(self.candidates.deep_view(), self.next as int),
        }
    }
}

/// What `close` owes the caller once the connection is torn down: an error
/// of the flush is reported, one of the shutdown is not, and neither is a
/// courtesy frame that could not be written.
pub open spec fn close_result(flushed: bool) -> Result<(), IpcError> {
    if flushed {
        Ok(())
    } else {
        Err(IpcError::Io)
    }
}

impl DiscordIpcClient {
    /// Creates a client for the application `client_id`.
    pub fn new(client_id: &str) -> (r: Result<Self, IpcError>)
        ensures
            r is Ok,
            r->Ok_0@ == ClientView::fresh(client_id@),
    {
        let client = DiscordIpcClient {
            client_id: client_id.to_owned(),
            state: State::Idle,
            connected: false,
            candidates: Vec::new(),
            next: 0,
        };
        assert(client.candidates.deep_view().skip(0) =~= Seq::<Seq<char>>::empty());
        Ok(client)
    }

    /// The client ID.
    pub fn get_client_id(&self) -> (client_id: &String)
        ensures
            client_id@ == self@.client_id,
    {
        &self.client_id
    }

    /// Where the session stands.
    pub fn state(&self) -> (state: State)
        ensures
            state == self@.state,
    {
        self.state
    }

    /// Whether a connection is live.
    pub fn is_connected(&self) -> (connected: bool)
        ensures
            connected == self@.connected,
    {
        self.connected
    }

    /// Starts to connect: the endpoints for `env` are now to be tried in
    /// order. A client that is not idle refuses.
    pub fn begin_connect(&mut self, env: &Environment) -> (r: Result<(), IpcError>)
        ensures
            old(self)@.state == State::Idle ==> r is Ok && final(self)@ == old(self)@.connecting(
                env@,
            ),
            old(self)@.state != State::Idle ==> r == Err::<(), IpcError>(IpcError::NotConnected)
                && final(self)@ == old(self)@,
    {
        match self.state {
            State::Idle => {
                self.candidates = candidate_paths(env);
                self.next = 0;
                self.connected = false;
                self.state = State::Handshaking;
                assert(self.candidates.deep_view().skip(0) =~= endpoint_paths(env@));
                Ok(())
            },
            _ => Err(IpcError::NotConnected),
        }
    }

    /// The endpoint to try now, while one is being looked for.
    pub fn next_endpoint(&self) -> (path: Option<String>)
        ensures
            self@.scanning() ==> path is Some && path->Some_0@ == self@.pending[0],
            !self@.scanning() ==> path is None,
    {
        if self.scanning() {
            Some(self.candidates[self.next].clone())
        } else {
            None
        }
    }

    fn scanning(&self) -> (scanning: bool)
        ensures
            scanning == self@.scanning(),
            scanning ==> self.next < self.candidates.len(),
    {
        match self.state {
            State::Handshaking => !self.connected && self.next < self.candidates.len(),
            _ => false,
        }
    }

    /// Takes note that the endpoint that was tried has refused.
    ///
    /// The scan goes on with the next endpoint. When the last one has
    /// refused, the endpoint is unreachable, and the client is idle again.
    pub fn endpoint_refused(&mut self) -> (r: Result<(), IpcError>)
        ensures
            final(self)@ == old(self)@.after_refusal(),
            r == old(self)@.refusal_result(),
    {
        if !self.scanning() {
            return Err(IpcError::NotConnected);
        }
        let ghost before = self.candidates.deep_view().skip(self.next as int);
        self.next = self.next + 1;
        assert(self.candidates.deep_view().skip(self.next as int) =~= before.drop_first());
        if self.next == self.candidates.len() {
            self.state = State::Idle;
            assert(self@.pending =~= Seq::<Seq<char>>::empty());
            Err(IpcError::EndpointUnreachable)
        } else {
            Ok(())
        }
    }

    /// Takes note that the endpoint that was tried has accepted: the
    /// connection is live, and no other endpoint is tried.
    pub fn endpoint_accepted(&mut self) -> (r: Result<(), IpcError>)
        ensures
            final(self)@ == old(self)@.after_acceptance(),
            old(self)@.scanning() ==> r is Ok,
            !old(self)@.scanning() ==> r == Err::<(), IpcError>(IpcError::NotConnected),
    {
        if !self.scanning() {
            return Err(IpcError::NotConnected);
        }
        self.connected = true;
        self.next = self.candidates.len();
        assert(self.candidates.deep_view().skip(self.next as int) =~= Seq::<Seq<char>>::empty());
        Ok(())
    }

    /// Whether bytes may be written to or read from the connection: only
    /// while one is live.
    pub fn check_connected(&self) -> (r: Result<(), IpcError>)
        ensures
            r == self@.may_transfer(),
    {
        if self.connected {
            Ok(())
        } else {
            Err(IpcError::NotConnected)
        }
    }

    /// The frame of the handshake, which is due once an endpoint has
    /// accepted.
    pub fn handshake_frame(&self) -> (r: Result<Vec<u8>, IpcError>)
        ensures
            !self@.may_shake_hands() ==> r == Err::<Vec<u8>, IpcError>(IpcError::NotConnected),
            self@.may_shake_hands() ==> frame_view(r) == message_frame(
                Opcode::Handshake,
                handshake_json(self@.client_id),
            ),
    {
        match self.state {
            State::Handshaking => {
                if self.connected {
                    let payload = handshake_payload(self.client_id.as_str());
                    encode_message(Opcode::Handshake, &payload)
                } else {
                    Err(IpcError::NotConnected)
                }
            },
            _ => Err(IpcError::NotConnected),
        }
    }

    /// The frame that sets `activity` as the activity of the process `pid`.
    ///
    /// Only a ready client sends activities, and only valid ones.
    pub fn activity_frame(&self, pid: u32, nonce: &str, activity: &Activity) -> (r: Result<
        Vec<u8>,
        IpcError,
    >)
        ensures
            !self@.may_send() ==> r == Err::<Vec<u8>, IpcError>(IpcError::NotConnected),
            self@.may_send() && !activity@.valid() ==> r == Err::<Vec<u8>, IpcError>(
                IpcError::Serialization,
            ),
            self@.may_send() && activity@.valid() ==> frame_view(r) == message_frame(
                Opcode::Frame,
                set_activity_json(pid, nonce@, activity@),
            ),
    {
        match self.state {
            State::Ready => {
                if !self.connected {
                    Err(IpcError::NotConnected)
                } else if !activity.is_valid() {
                    Err(IpcError::Serialization)
                } else {
                    let payload = set_activity_payload(pid, nonce, activity);
                    encode_message(Opcode::Frame, &payload)
                }
            },
            _ => Err(IpcError::NotConnected),
        }
    }

    /// Takes note of what came of writing a frame.
    ///
    /// A write that failed ends the session. The first write that succeeds
    /// is that of the handshake and makes the client ready.
    pub fn frame_written(&mut self, written: bool) -> (r: Result<(), IpcError>)
        ensures
            final(self)@ == old(self)@.after_write(written),
            r == old(self)@.transfer_result(written),
    {
        if !self.connected {
            return Err(IpcError::NotConnected);
        }
        if !written {
            self.shut();
            return Err(IpcError::Io);
        }
        match self.state {
            State::Handshaking => {
                self.state = State::Ready;
            },
            _ => {},
        }
        Ok(())
    }

    /// Takes note of what came of reading from the connection.
    ///
    /// A read that failed, or that ended before the bytes asked for were
    /// there, ends the session: the connection is gone.
    pub fn frame_read(&mut self, received: bool) -> (r: Result<(), IpcError>)
        ensures
            final(self)@ == old(self)@.after_read(received),
            r == old(self)@.transfer_result(received),
    {
        if !self.connected {
            return Err(IpcError::NotConnected);
        }
        if !received {
            self.shut();
            return Err(IpcError::Io);
        }
        Ok(())
    }

    fn shut(&mut self)
        ensures
            final(self)@ == old(self)@.after_close(),
    {
        self.state = State::Closed;
        self.connected = false;
        self.candidates = Vec::new();
        self.next = 0;
        assert(self.candidates.deep_view().skip(0) =~= Seq::<Seq<char>>::empty());
    }

    /// Ends the session, from whatever state.
    ///
    /// Where a connection is live the caller is to write the courtesy
    /// frame, an empty object under the closing opcode, then to flush and to
    /// shut the connection down. Closing a session without a connection, or
    /// a second time, asks for nothing.
    pub fn close(&mut self) -> (plan: ClosePlan)
        ensures
            final(self)@ == old(self)@.after_close(),
            plan.shutdown == old(self)@.connected,
            !old(self)@.connected ==> plan.courtesy is None,
            old(self)@.connected ==> match message_frame(Opcode::Close, close_json()) {
                Ok(frame) => plan.courtesy is Some && plan.courtesy->Some_0@ == frame,
                Err(_) => plan.courtesy is None,
            },
    {
        let was_connected = self.connected;
        self.shut();
        if !was_connected {
            return ClosePlan { courtesy: None, shutdown: false };
        }
        let payload = close_payload();
        match encode_message(Opcode::Close, &payload) {
            Ok(bytes) => ClosePlan { courtesy: Some(bytes), shutdown: true },
            Err(_) => ClosePlan { courtesy: None, shutdown: true },
        }
    }

    /// What `close` returns once the plan is carried out: whether the
    /// courtesy frame was written and whether the shutdown went well do not
    /// count, a failed flush does.
    pub fn close_outcome(courtesy_written: bool, flushed: bool, shut_down: bool) -> (r: Result<
        (),
        IpcError,
    >)
        ensures
            r == close_result(flushed),
    {
        if flushed {
            Ok(())
        } else {
            Err(IpcError::Io)
        }
    }
}

/// In a scan the endpoints are tried in their order: after `k` refusals
/// the endpoint to try is the one at `k`, and when it accepts the
/// connection is live and nothing is left to try.
pub proof fn lemma_scan_tries_in_order(client: ClientView, k: nat)
    requires
        client.scanning(),
        k < client.pending.len(),
    ensures
        client.after_refusals(k).scanning(),
        client.after_refusals(k).pending == client.pending.skip(k as int),
        client.after_refusals(k).pending[0] == client.pending[k as int],
        client.after_refusals(k).after_acceptance().connected,
        client.after_refusals(k).after_acceptance().state == State::Handshaking,
        client.after_refusals(k).after_acceptance().pending.len() == 0,
    decreases k,
{
    if k == 0 {
        assert(client.pending.skip(0) =~= client.pending);
    } else {
        lemma_scan_tries_in_order(client.after_refusal(), (k - 1) as nat);
        assert(client.pending.drop_first().skip(k - 1) =~= client.pending.skip(k as int));
    }
}

/// When every endpoint of a scan has refused, the last refusal reports
/// that the endpoint is unreachable, and the client is idle, without a
/// connection.
pub proof fn lemma_scan_exhausted(client: ClientView)
    requires
        client.scanning(),
    ensures
        client.after_refusals((client.pending.len() - 1) as nat).refusal_result() == Err::<
            (),
            IpcError,
        >(IpcError::EndpointUnreachable),
        client.after_refusals(client.pending.len()).state == State::Idle,
        !client.after_refusals(client.pending.len()).connected,
        forall|k: nat|
            k < client.pending.len() - 1 ==> #[trigger] client.after_refusals(k).refusal_result()
                == Ok::<(), IpcError>(()),
    decreases client.pending.len(),
{
    let n = client.pending.len();
    lemma_scan_tries_in_order(client, (n - 1) as nat);
    lemma_refusals_compose(client, (n - 1) as nat);
    assert forall|k: nat| k < n - 1 implies #[trigger] client.after_refusals(k).refusal_result()
        == Ok::<(), IpcError>(()) by {
        lemma_scan_tries_in_order(client, k);
    }
}

/// One more refusal after `n` of them makes `n + 1`.
pub proof fn lemma_refusals_compose(client: ClientView, n: nat)
    ensures
        client.after_refusals(n + 1) == client.after_refusals(n).after_refusal(),
    decreases n,
{
    if n == 0 {
        assert(client.after_refusals(1) == client.after_refusal().after_refusals(0));
    } else {
        lemma_refusals_compose(client.after_refusal(), (n - 1) as nat);
        assert(client.after_refusals(n + 1) == client.after_refusal().after_refusals(n));
    }
}

/// After `close` nothing is written or read: a transfer is refused as not
/// connected, whatever the state was, and so are the handshake and an
/// activity. A second `close` changes nothing.
pub proof fn lemma_closed_refuses_transfers(client: ClientView)
    ensures
        client.after_close().state == State::Closed,
        client.after_close().may_transfer() == Err::<(), IpcError>(IpcError::NotConnected),
        !client.after_close().may_shake_hands(),
        !client.after_close().may_send(),
        client.after_close().after_close() == client.after_close(),
{
}

/// A closed session stays closed: no report of the caller brings it back.
pub proof fn lemma_closed_is_final(client: ClientView, written: bool)
    requires
        client.state == State::Closed,
        !client.connected,
    ensures
        client.after_refusal() == client,
        client.after_acceptance() == client,
        client.after_write(written) == client,
        client.after_read(written) == client,
        client.after_write(written).may_transfer() == Err::<(), IpcError>(IpcError::NotConnected),
{
}

/// Every step keeps the client consistent: a connection is live only
/// while the handshake is due or done.
pub proof fn lemma_steps_keep_consistency(
    client: ClientView,
    env: Map<Seq<char>, Seq<char>>,
    written: bool,
)
    requires
        client.consistent(),
    ensures
        ClientView::fresh(client.client_id).consistent(),
        client.connecting(env).consistent(),
        client.after_refusal().consistent(),
        client.after_acceptance().consistent(),
        client.after_write(written).consistent(),
        client.after_read(written).consistent(),
        client.after_close().consistent(),
{
}

} // verus!
