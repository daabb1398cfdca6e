//! The tracker client: obtains and refreshes a connection id, issues
//! announces, applies the retry schedule, and validates every response
//! before trusting it.

use vstd::prelude::*;

use crate::codec::{
    decode, encode_announce_request, encode_connect_request, AnnounceParams, Peer, ResponseKind,
    ResponseModel, TrackerResponse,
};
use crate::codec::spec_decode;
use crate::retry::{RetryState, MAX_ATTEMPTS};
use crate::session::{random_digit, ConnectionState, TransactionRegistry};

verus! {

/// What the transport reports: the deadline passed without a datagram, or
/// the socket itself failed.
#[derive(Clone, Copy, Debug, PartialEq, Eq, Structural)]
pub enum TransportError {
    Timeout,
    Io,
}

/// The policy-level outcomes surfaced to the caller.
#[derive(Debug, PartialEq, Eq)]
pub enum TrackerError {
    /// The tracker itself rejected the request; the payload is its message.
    Rejected(Vec<u8>),
    /// A response carried a foreign transaction id (internal; surfaces only
    /// through retry exhaustion, never directly).
    TransactionMismatch,
    /// The connection id expired again immediately after a fresh connect.
    ConnectionExpired,
    /// The retry budget was spent without one validated response.
    TimedOut,
    /// The transport failed in a way a retry cannot mend.
    Transport(TransportError),
}

/// Sends datagrams to the tracker and receives replies under a deadline.
/// The two implementations are a UDP socket and an in-memory fake.
pub trait NetClient {
    fn send(&mut self, data: &Vec<u8>) -> (r: Result<(), TransportError>);

    fn recv(&mut self, timeout_secs: u64) -> (r: Result<Vec<u8>, TransportError>);
}

/// Why a session ended in `Failed`.
#[derive(Clone, Copy, Debug, PartialEq, Eq, Structural)]
pub enum ErrorKind {
    Rejected,
    TimedOut,
    Transport,
    Expired,
}

/// The protocol state machine's position.
#[derive(Clone, Copy, Debug, PartialEq, Eq, Structural)]
pub enum ClientState {
    Disconnected,
    Connecting,
    Connected,
    Announcing,
    Failed(ErrorKind),
}

/// What one announce exchange yields.
#[derive(Debug, PartialEq, Eq)]
pub struct AnnounceResult {
    pub interval: u32,
    pub leechers: u32,
    pub seeders: u32,
    pub peers: Vec<Peer>,
}

/// The verdict on one received datagram while connecting.
pub enum ConnectOutcome {
    /// A well-formed connect response with the outstanding transaction id.
    Accept(u64),
    /// A well-formed error frame with the outstanding transaction id.
    Reject(Vec<u8>),
    /// Anything else: malformed, foreign transaction id, or wrong action;
    /// discarded without a trace, as a hostile or stray packet.
    Ignore,
}

/// The verdict on one received datagram while announcing.
pub enum AnnounceOutcome {
    Accept(AnnounceResult),
    Reject(Vec<u8>),
    Ignore,
}

/// Decides what one datagram received while connecting means. Pure: the
/// whole verdict is a function of the bytes and the outstanding id.
pub fn handle_connect_response(buf: &[u8], expected_txn: u32) -> (o: ConnectOutcome)
    ensures
        match spec_decode(buf@, ResponseKind::Connect) {
            Ok(m) => match m {
                ResponseModel::Connect { transaction_id, connection_id } => {
                    if transaction_id == expected_txn {
                        o == ConnectOutcome::Accept(connection_id)
                    } else {
                        o is Ignore
                    }
                },
                ResponseModel::Error { transaction_id, message } => {
                    if transaction_id == expected_txn {
                        o matches ConnectOutcome::Reject(msg) && msg@ == message
                    } else {
                        o is Ignore
                    }
                },
                ResponseModel::Announce { .. } => o is Ignore,
            },
            Err(_) => o is Ignore,
        },
{
    match decode(buf, ResponseKind::Connect) {
        Ok(TrackerResponse::Connect { transaction_id, connection_id }) => {
            if TransactionRegistry::validate(transaction_id, expected_txn) {
                ConnectOutcome::Accept(connection_id)
            } else {
                ConnectOutcome::Ignore
            }
        },
        Ok(TrackerResponse::Error { transaction_id, message }) => {
            if TransactionRegistry::validate(transaction_id, expected_txn) {
                ConnectOutcome::Reject(message)
            } else {
                ConnectOutcome::Ignore
            }
        },
        Ok(TrackerResponse::Announce { .. }) => ConnectOutcome::Ignore,
        Err(_) => ConnectOutcome::Ignore,
    }
}

/// Decides what one datagram received while announcing means; the peer list
/// and counters of an accepted response are exactly the decoded ones.
pub fn handle_announce_response(buf: &[u8], expected_txn: u32) -> (o: AnnounceOutcome)
    ensures
        match spec_decode(buf@, ResponseKind::Announce) {
            Ok(m) => match m {
                ResponseModel::Announce { transaction_id, interval, leechers, seeders, peers } => {
                    if transaction_id == expected_txn {
                        o matches AnnounceOutcome::Accept(res) && res.interval == interval
                            && res.leechers == leechers && res.seeders == seeders && res.peers@
                            == peers
                    } else {
                        o is Ignore
                    }
                },
                ResponseModel::Error { transaction_id, message } => {
                    if transaction_id == expected_txn {
                        o matches AnnounceOutcome::Reject(msg) && msg@ == message
                    } else {
                        o is Ignore
                    }
                },
                ResponseModel::Connect { .. } => o is Ignore,
            },
            Err(_) => o is Ignore,
        },
{
    match decode(buf, ResponseKind::Announce) {
        Ok(TrackerResponse::Announce { transaction_id, interval, leechers, seeders, peers }) => {
            if TransactionRegistry::validate(transaction_id, expected_txn) {
                AnnounceOutcome::Accept(AnnounceResult { interval, leechers, seeders, peers })
            } else {
                AnnounceOutcome::Ignore
            }
        },
        Ok(TrackerResponse::Error { transaction_id, message }) => {
            if TransactionRegistry::validate(transaction_id, expected_txn) {
                AnnounceOutcome::Reject(message)
            } else {
                AnnounceOutcome::Ignore
            }
        },
        Ok(TrackerResponse::Connect { .. }) => AnnounceOutcome::Ignore,
        Err(_) => AnnounceOutcome::Ignore,
    }
}

/// Builds the 20-byte peer id: a fixed client prefix and 12 random digits.
pub fn make_peer_id() -> (r: Vec<u8>)
    ensures
        r@.len() == 20,
        r@.subrange(0, 8) == seq![45u8, 80u8, 80u8, 48u8, 48u8, 48u8, 49u8, 45u8],
        forall|j: int| 8 <= j < 20 ==> 48 <= #[trigger] r@[j] <= 57,
{
    let mut v: Vec<u8> = Vec::new();
    v.push(45);  // '-'
    v.push(80);  // 'P'
    v.push(80);  // 'P'
    v.push(48);  // '0'
    v.push(48);  // '0'
    v.push(48);  // '0'
    v.push(49);  // '1'
    v.push(45);  // '-'
    let mut i: usize = 0;
    while i < 12
        invariant
            i <= 12,
            v@.len() == 8 + i,
            v@.subrange(0, 8) =~= seq![45u8, 80u8, 80u8, 48u8, 48u8, 48u8, 49u8, 45u8],
            forall|j: int| 8 <= j < v@.len() ==> 48 <= #[trigger] v@[j] <= 57,
        decreases 12 - i,
    {
        let d = random_digit();
        v.push(48 + d);
        i = i + 1;
        proof {
            assert(v@.subrange(0, 8) =~= seq![45u8, 80u8, 80u8, 48u8, 48u8, 48u8, 49u8, 45u8]);
        }
    }
    v
}

/// One tracker session: owns the transport, the connection id with its
/// window, and the transaction registry; all mutation is sequential.
pub struct TrackerClient<C: NetClient> {
    pub transport: C,
    pub conn: ConnectionState,
    pub registry: TransactionRegistry,
    pub state: ClientState,
    pub peer_id: Vec<u8>,
}

impl<C: NetClient> TrackerClient<C> {
    pub open spec fn wf(self) -> bool {
        self.peer_id@.len() == 20
    }

    pub fn new(transport: C) -> (r: Self)
        ensures
            r.wf(),
            r.conn.connection_id is None,
            r.state is Disconnected,
            r.registry.outstanding is None,
    {
        TrackerClient {
            transport,
            conn: ConnectionState::new(),
            registry: TransactionRegistry::new(),
            state: ClientState::Disconnected,
            peer_id: make_peer_id(),
        }
    }

    /// Performs the connect exchange: sends a connect request with a fresh
    /// transaction id and waits under the backoff schedule, re-sending the
    /// identical bytes each attempt, until a validated response, an explicit
    /// rejection, a transport fault, or exhaustion.
    ///
    /// The connection state is mutated only by success (law: a response with
    /// a foreign transaction id leaves it untouched); on success it holds
    /// the server's connection id, stamped `now`.
    pub fn connect(&mut self, now: u64) -> (r: Result<(), TrackerError>)
        requires
            old(self).wf(),
        ensures
            final(self).wf(),
            final(self).peer_id == old(self).peer_id,
            r is Ok ==> final(self).conn.connection_id is Some && final(self).conn.issued_at == now
                && final(self).conn.valid_spec(now) && final(self).state is Connected
                && final(self).registry.outstanding is None,
            !(r is Ok) ==> final(self).conn == old(self).conn && final(self).state is Failed,
            match r {
                Ok(_) => true,
                Err(e) => e is Rejected || e is TimedOut || e is Transport,
            },
    {
        self.state = ClientState::Connecting;
        let txn = self.registry.issue();
        let request = encode_connect_request(txn);
        let mut retry = RetryState::new();
        while retry.attempt < MAX_ATTEMPTS
            invariant
                self.wf(),
                self.peer_id == old(self).peer_id,
                self.conn == old(self).conn,
                retry.attempt <= MAX_ATTEMPTS,
            decreases MAX_ATTEMPTS - retry.attempt,
        {
            match self.transport.send(&request) {
                Ok(()) => {},
                Err(e) => {
                    self.state = ClientState::Failed(ErrorKind::Transport);
                    return Err(TrackerError::Transport(e));
                },
            }
            match self.transport.recv(retry.current_timeout()) {
                Err(TransportError::Timeout) => {},
                Err(TransportError::Io) => {
                    self.state = ClientState::Failed(ErrorKind::Transport);
                    return Err(TrackerError::Transport(TransportError::Io));
                },
                Ok(buf) => {
                    match handle_connect_response(buf.as_slice(), txn) {
                        ConnectOutcome::Accept(connection_id) => {
                            self.conn.set(connection_id, now);
                            self.registry.clear();
                            self.state = ClientState::Connected;
                            return Ok(());
                        },
                        ConnectOutcome::Reject(message) => {
                            self.state = ClientState::Failed(ErrorKind::Rejected);
                            return Err(TrackerError::Rejected(message));
                        },
                        // A foreign transaction id or a malformed buffer is
                        // discarded and counts as a timeout for backoff.
                        ConnectOutcome::Ignore => {},
                    }
                },
            }
            retry.advance();
        }
        self.state = ClientState::Failed(ErrorKind::TimedOut);
        Err(TrackerError::TimedOut)
    }

    /// Performs one announce. An absent or expired connection id triggers one
    /// transparent connect first — never more than one: should the fresh id
    /// be invalid at `now` again, that is fatal. On success the decoded
    /// interval, counters and peer list are returned and the session stays
    /// connected, reusing the connection id until it expires.
    pub fn announce(&mut self, params: &AnnounceParams, now: u64) -> (r: Result<
        AnnounceResult,
        TrackerError,
    >)
        requires
            old(self).wf(),
            params.wf(),
        ensures
            final(self).wf(),
            final(self).peer_id == old(self).peer_id,
            r is Ok ==> final(self).state is Connected && final(self).conn.valid_spec(now),
            old(self).conn.valid_spec(now) ==> final(self).conn == old(self).conn,
            !old(self).conn.valid_spec(now) && r is Ok ==> final(self).conn.issued_at == now,
            match r {
                Ok(_) => true,
                Err(e) => e is Rejected || e is TimedOut || e is Transport
                    || e is ConnectionExpired,
            },
    {
        if !self.conn.is_valid(now) {
            // The one implicit upgrade: absent and expired are alike.
            match self.connect(now) {
                Ok(()) => {},
                Err(e) => {
                    return Err(e);
                },
            }
            if !self.conn.is_valid(now) {
                self.state = ClientState::Failed(ErrorKind::Expired);
                return Err(TrackerError::ConnectionExpired);
            }
        }
        let connection_id = match self.conn.connection_id {
            Some(id) => id,
            None => {
                self.state = ClientState::Failed(ErrorKind::Expired);
                return Err(TrackerError::ConnectionExpired);
            },
        };
        self.state = ClientState::Announcing;
        // A new logical request gets a fresh transaction id; every re-send
        // below reuses the identical bytes, transaction id included.
        let txn = self.registry.issue();
        let request = encode_announce_request(connection_id, txn, params, &self.peer_id);
        let ghost entry_conn = self.conn;
        let mut retry = RetryState::new();
        while retry.attempt < MAX_ATTEMPTS
            invariant
                self.wf(),
                self.peer_id == old(self).peer_id,
                self.conn == entry_conn,
                entry_conn.valid_spec(now),
                old(self).conn.valid_spec(now) ==> entry_conn == old(self).conn,
                !old(self).conn.valid_spec(now) ==> entry_conn.issued_at == now,
                retry.attempt <= MAX_ATTEMPTS,
            decreases MAX_ATTEMPTS - retry.attempt,
        {
            match self.transport.send(&request) {
                Ok(()) => {},
                Err(e) => {
                    self.state = ClientState::Failed(ErrorKind::Transport);
                    return Err(TrackerError::Transport(e));
                },
            }
            match self.transport.recv(retry.current_timeout()) {
                Err(TransportError::Timeout) => {},
                Err(TransportError::Io) => {
                    self.state = ClientState::Failed(ErrorKind::Transport);
                    return Err(TrackerError::Transport(TransportError::Io));
                },
                Ok(buf) => {
                    match handle_announce_response(buf.as_slice(), txn) {
                        AnnounceOutcome::Accept(result) => {
                            self.registry.clear();
                            self.state = ClientState::Connected;
                            return Ok(result);
                        },
                        AnnounceOutcome::Reject(message) => {
                            self.state = ClientState::Failed(ErrorKind::Rejected);
                            return Err(TrackerError::Rejected(message));
                        },
                        AnnounceOutcome::Ignore => {},
                    }
                },
            }
            retry.advance();
        }
        self.state = ClientState::Failed(ErrorKind::TimedOut);
        Err(TrackerError::TimedOut)
    }
}

} // verus!
