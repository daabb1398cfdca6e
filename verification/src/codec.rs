//! Pure encode/decode between logical request/response values and the
//! fixed big-endian binary layouts of the UDP tracker protocol.

use vstd::prelude::*;

use crate::wire::{
    be16_at, be32_at, be64_at, lemma_u16_recompose, lemma_u32_recompose, lemma_u64_recompose,
    push_bytes, push_u16_be, push_u32_be, push_u64_be, read_u16_at, read_u32_at, read_u64_at,
    u16_be_bytes, u32_be_bytes, u64_be_bytes,
};

verus! {

/// Magic constant opening every connect request.
pub const PROTOCOL_MAGIC: u64 = 0x41727101980;

pub const ACTION_CONNECT: u32 = 0;

pub const ACTION_ANNOUNCE: u32 = 1;

pub const ACTION_ERROR: u32 = 3;

/// A decode failure: the buffer ended inside a field (or has a malformed
/// length), or carried an action code that the expected kind refuses.
#[derive(Clone, Copy, Debug, PartialEq, Eq, Structural)]
pub enum CodecError {
    Truncated,
    UnexpectedAction,
}

/// One peer entry of an announce response.
#[derive(Clone, Copy, Debug, PartialEq, Eq, Structural)]
pub struct Peer {
    pub ip: u32,
    pub port: u16,
}

/// Which response layout the caller is waiting for.
#[derive(Clone, Copy, Debug, PartialEq, Eq, Structural)]
pub enum ResponseKind {
    Connect,
    Announce,
}

/// Caller-supplied announce fields; the connection id, transaction id and
/// peer id are owned by the client session and added there.
pub struct AnnounceParams {
    pub info_hash: Vec<u8>,
    pub downloaded: u64,
    pub left: u64,
    pub uploaded: u64,
    pub event: u32,
    pub ip: u32,
    pub key: u32,
    pub num_want: u32,
    pub port: u16,
}

impl AnnounceParams {
    pub open spec fn wf(self) -> bool {
        self.info_hash@.len() == 20
    }
}

/// An outbound request, immutable once built; it lives for one send
/// attempt's worth of retries. Scrape shares this framing family and is an
/// extension point, not implemented.
pub enum TrackerRequest {
    Connect { transaction_id: u32 },
    Announce {
        connection_id: u64,
        transaction_id: u32,
        params: AnnounceParams,
        peer_id: Vec<u8>,
    },
}

impl TrackerRequest {
    pub open spec fn wf(self) -> bool {
        match self {
            TrackerRequest::Connect { .. } => true,
            TrackerRequest::Announce { params, peer_id, .. } => params.wf() && peer_id@.len()
                == 20,
        }
    }
}

/// A decoded response; constructed only by `decode`.
pub enum TrackerResponse {
    Connect { transaction_id: u32, connection_id: u64 },
    Announce {
        transaction_id: u32,
        interval: u32,
        leechers: u32,
        seeders: u32,
        peers: Vec<Peer>,
    },
    Error { transaction_id: u32, message: Vec<u8> },
}

/// The mathematical shape of a decoded response.
pub enum ResponseModel {
    Connect { transaction_id: u32, connection_id: u64 },
    Announce {
        transaction_id: u32,
        interval: u32,
        leechers: u32,
        seeders: u32,
        peers: Seq<Peer>,
    },
    Error { transaction_id: u32, message: Seq<u8> },
}

impl View for TrackerResponse {
    type V = ResponseModel;

    open spec fn view(&self) -> ResponseModel {
        match self {
            TrackerResponse::Connect { transaction_id, connection_id } => (
                ResponseModel::Connect {
                    transaction_id: *transaction_id,
                    connection_id: *connection_id,
                }
            ),
            TrackerResponse::Announce { transaction_id, interval, leechers, seeders, peers } => (
                ResponseModel::Announce {
                    transaction_id: *transaction_id,
                    interval: *interval,
                    leechers: *leechers,
                    seeders: *seeders,
                    peers: peers@,
                }
            ),
            TrackerResponse::Error { transaction_id, message } => (
                ResponseModel::Error { transaction_id: *transaction_id, message: message@ }
            ),
        }
    }
}

// ---------------------------------------------------------------------------
// The layouts as sequences of bytes.
// ---------------------------------------------------------------------------

/// Connect request: magic, action 0, transaction id; 16 bytes.
pub open spec fn spec_connect_request(transaction_id: u32) -> Seq<u8> {
    u64_be_bytes(PROTOCOL_MAGIC) + u32_be_bytes(ACTION_CONNECT) + u32_be_bytes(transaction_id)
}

pub open spec fn spec_peer_bytes(p: Peer) -> Seq<u8> {
    u32_be_bytes(p.ip) + u16_be_bytes(p.port)
}

pub open spec fn spec_peers_bytes(ps: Seq<Peer>) -> Seq<u8>
    decreases ps.len(),
{
    if ps.len() == 0 {
        Seq::empty()
    } else {
        spec_peer_bytes(ps[0]) + spec_peers_bytes(ps.skip(1))
    }
}

/// Announce request: connection id, action 1, transaction id, info-hash,
/// peer id, progress counters, event, ip, key, num_want, port; 98 bytes.
pub open spec fn spec_announce_request(
    connection_id: u64,
    transaction_id: u32,
    params: AnnounceParams,
    peer_id: Seq<u8>,
) -> Seq<u8> {
    u64_be_bytes(connection_id) + u32_be_bytes(ACTION_ANNOUNCE) + u32_be_bytes(transaction_id)
        + params.info_hash@ + peer_id + u64_be_bytes(params.downloaded) + u64_be_bytes(params.left)
        + u64_be_bytes(params.uploaded) + u32_be_bytes(params.event) + u32_be_bytes(params.ip)
        + u32_be_bytes(params.key) + u32_be_bytes(params.num_want) + u16_be_bytes(params.port)
}

/// Connect response: action 0, transaction id, connection id; 16 bytes.
pub open spec fn spec_connect_response(transaction_id: u32, connection_id: u64) -> Seq<u8> {
    u32_be_bytes(ACTION_CONNECT) + u32_be_bytes(transaction_id) + u64_be_bytes(connection_id)
}

/// Announce response: action 1, transaction id, interval, leechers, seeders,
/// then 6 bytes per peer.
pub open spec fn spec_announce_response(
    transaction_id: u32,
    interval: u32,
    leechers: u32,
    seeders: u32,
    peers: Seq<Peer>,
) -> Seq<u8> {
    u32_be_bytes(ACTION_ANNOUNCE) + u32_be_bytes(transaction_id) + u32_be_bytes(interval)
        + u32_be_bytes(leechers) + u32_be_bytes(seeders) + spec_peers_bytes(peers)
}

/// Error response: action 3, transaction id, then the message bytes.
pub open spec fn spec_error_response(transaction_id: u32, message: Seq<u8>) -> Seq<u8> {
    u32_be_bytes(ACTION_ERROR) + u32_be_bytes(transaction_id) + message
}

// ---------------------------------------------------------------------------
// What decoding a buffer yields.
// ---------------------------------------------------------------------------

pub open spec fn spec_peers_of(s: Seq<u8>) -> Seq<Peer>
    decreases s.len(),
{
    if s.len() < 6 {
        Seq::empty()
    } else {
        seq![Peer { ip: be32_at(s, 0), port: be16_at(s, 4) }] + spec_peers_of(s.skip(6))
    }
}

/// Decoding: an error frame (action 3) is recognised for either expected
/// kind; otherwise the buffer must have the expected kind's exact layout.
pub open spec fn spec_decode(s: Seq<u8>, kind: ResponseKind) -> Result<ResponseModel, CodecError> {
    if s.len() < 8 {
        Err(CodecError::Truncated)
    } else {
        let action = be32_at(s, 0);
        let txn = be32_at(s, 4);
        if action == ACTION_ERROR {
            Ok(ResponseModel::Error { transaction_id: txn, message: s.skip(8) })
        } else {
            match kind {
                ResponseKind::Connect => {
                    if s.len() != 16 {
                        Err(CodecError::Truncated)
                    } else if action != ACTION_CONNECT {
                        Err(CodecError::UnexpectedAction)
                    } else {
                        Ok(
                            ResponseModel::Connect {
                                transaction_id: txn,
                                connection_id: be64_at(s, 8),
                            },
                        )
                    }
                },
                ResponseKind::Announce => {
                    if s.len() < 20 {
                        Err(CodecError::Truncated)
                    } else if (s.len() - 20) % 6 != 0 {
                        Err(CodecError::Truncated)
                    } else if action != ACTION_ANNOUNCE {
                        Err(CodecError::UnexpectedAction)
                    } else {
                        Ok(
                            ResponseModel::Announce {
                                transaction_id: txn,
                                interval: be32_at(s, 8),
                                leechers: be32_at(s, 12),
                                seeders: be32_at(s, 16),
                                peers: spec_peers_of(s.skip(20)),
                            },
                        )
                    }
                },
            }
        }
    }
}

// ---------------------------------------------------------------------------
// Laws: encoding then decoding reproduces the fields exactly, and a short
// buffer never decodes as a connect response.
// ---------------------------------------------------------------------------

proof fn lemma_peers_roundtrip(ps: Seq<Peer>)
    ensures
        spec_peers_of(spec_peers_bytes(ps)) == ps,
    decreases ps.len(),
{
    if ps.len() == 0 {
        assert(spec_peers_of(spec_peers_bytes(ps)) =~= ps);
    } else {
        let s = spec_peers_bytes(ps);
        lemma_peers_bytes_len(ps.skip(1));
        assert(s == spec_peer_bytes(ps[0]) + spec_peers_bytes(ps.skip(1)));
        assert(s.len() >= 6);
        let p = ps[0];
        assert(s[0] == (p.ip >> 24) as u8);
        assert(s[1] == (p.ip >> 16) as u8);
        assert(s[2] == (p.ip >> 8) as u8);
        assert(s[3] == p.ip as u8);
        assert(s[4] == (p.port >> 8) as u8);
        assert(s[5] == p.port as u8);
        lemma_u32_recompose(p.ip);
        lemma_u16_recompose(p.port);
        assert(be32_at(s, 0) == p.ip);
        assert(be16_at(s, 4) == p.port);
        assert(s.skip(6) =~= spec_peers_bytes(ps.skip(1)));
        lemma_peers_roundtrip(ps.skip(1));
        assert(spec_peers_of(s) =~= ps);
    }
}

/// Law: a connect response round-trips; decoding what was encoded gives
/// back the transaction id and connection id exactly.
pub proof fn lemma_connect_response_roundtrip(transaction_id: u32, connection_id: u64)
    ensures
        spec_decode(spec_connect_response(transaction_id, connection_id), ResponseKind::Connect)
            == Ok::<ResponseModel, CodecError>(
            ResponseModel::Connect { transaction_id, connection_id },
        ),
{
    let s = spec_connect_response(transaction_id, connection_id);
    lemma_u32_recompose(ACTION_CONNECT);
    lemma_u32_recompose(transaction_id);
    lemma_u64_recompose(connection_id);
    assert(be32_at(s, 0) == ACTION_CONNECT);
    assert(be32_at(s, 4) == transaction_id);
    assert(be64_at(s, 8) == connection_id);
}

/// Law: an announce response round-trips; in particular the peer list is
/// reproduced exactly, entry for entry.
pub proof fn lemma_announce_response_roundtrip(
    transaction_id: u32,
    interval: u32,
    leechers: u32,
    seeders: u32,
    peers: Seq<Peer>,
)
    ensures
        spec_decode(
            spec_announce_response(transaction_id, interval, leechers, seeders, peers),
            ResponseKind::Announce,
        ) == Ok::<ResponseModel, CodecError>(
            ResponseModel::Announce { transaction_id, interval, leechers, seeders, peers },
        ),
{
    let s = spec_announce_response(transaction_id, interval, leechers, seeders, peers);
    lemma_peers_bytes_len(peers);
    assert(s.len() == 20 + 6 * peers.len());
    assert((s.len() - 20) % 6 == 0) by (nonlinear_arith)
        requires
            s.len() == 20 + 6 * peers.len(),
    ;
    lemma_u32_recompose(ACTION_ANNOUNCE);
    lemma_u32_recompose(transaction_id);
    lemma_u32_recompose(interval);
    lemma_u32_recompose(leechers);
    lemma_u32_recompose(seeders);
    assert(be32_at(s, 0) == ACTION_ANNOUNCE);
    assert(be32_at(s, 4) == transaction_id);
    assert(be32_at(s, 8) == interval);
    assert(be32_at(s, 12) == leechers);
    assert(be32_at(s, 16) == seeders);
    assert(s.skip(20) =~= spec_peers_bytes(peers));
    lemma_peers_roundtrip(peers);
}

/// Law: any buffer shorter than 16 bytes decodes as `Truncated` when a
/// connect response is expected. The one family left out is a well-formed
/// error frame: at least 8 bytes whose action code is 3, which decodes as
/// the tracker's error message instead.
pub proof fn lemma_short_connect_buffer_truncated(s: Seq<u8>)
    requires
        s.len() < 16,
        !(s.len() >= 8 && be32_at(s, 0) == ACTION_ERROR),
    ensures
        spec_decode(s, ResponseKind::Connect) == Err::<ResponseModel, CodecError>(
            CodecError::Truncated,
        ),
{
}

// ---------------------------------------------------------------------------
// Executable encoders.
// ---------------------------------------------------------------------------

pub fn encode_connect_request(transaction_id: u32) -> (r: Vec<u8>)
    ensures
        r@ == spec_connect_request(transaction_id),
        r@.len() == 16,
{
    let mut v: Vec<u8> = Vec::new();
    push_u64_be(&mut v, PROTOCOL_MAGIC);
    push_u32_be(&mut v, ACTION_CONNECT);
    push_u32_be(&mut v, transaction_id);
    proof {
        assert(v@ =~= spec_connect_request(transaction_id));
    }
    v
}

pub fn encode_announce_request(
    connection_id: u64,
    transaction_id: u32,
    params: &AnnounceParams,
    peer_id: &Vec<u8>,
) -> (r: Vec<u8>)
    requires
        params.wf(),
        peer_id@.len() == 20,
    ensures
        r@ == spec_announce_request(connection_id, transaction_id, *params, peer_id@),
        r@.len() == 98,
{
    let mut v: Vec<u8> = Vec::new();
    push_u64_be(&mut v, connection_id);
    push_u32_be(&mut v, ACTION_ANNOUNCE);
    push_u32_be(&mut v, transaction_id);
    push_bytes(&mut v, params.info_hash.as_slice());
    push_bytes(&mut v, peer_id.as_slice());
    push_u64_be(&mut v, params.downloaded);
    push_u64_be(&mut v, params.left);
    push_u64_be(&mut v, params.uploaded);
    push_u32_be(&mut v, params.event);
    push_u32_be(&mut v, params.ip);
    push_u32_be(&mut v, params.key);
    push_u32_be(&mut v, params.num_want);
    push_u16_be(&mut v, params.port);
    proof {
        assert(v@ =~= spec_announce_request(connection_id, transaction_id, *params, peer_id@));
    }
    v
}

/// The bytes a request goes onto the wire as.
pub open spec fn spec_encode(request: TrackerRequest) -> Seq<u8> {
    match request {
        TrackerRequest::Connect { transaction_id } => spec_connect_request(transaction_id),
        TrackerRequest::Announce { connection_id, transaction_id, params, peer_id } => (
            spec_announce_request(connection_id, transaction_id, params, peer_id@)
        ),
    }
}

pub fn encode(request: &TrackerRequest) -> (r: Vec<u8>)
    requires
        request.wf(),
    ensures
        r@ == spec_encode(*request),
{
    match request {
        TrackerRequest::Connect { transaction_id } => encode_connect_request(*transaction_id),
        TrackerRequest::Announce { connection_id, transaction_id, params, peer_id } => (
            encode_announce_request(*connection_id, *transaction_id, params, peer_id)
        ),
    }
}

pub fn encode_connect_response(transaction_id: u32, connection_id: u64) -> (r: Vec<u8>)
    ensures
        r@ == spec_connect_response(transaction_id, connection_id),
        r@.len() == 16,
{
    let mut v: Vec<u8> = Vec::new();
    push_u32_be(&mut v, ACTION_CONNECT);
    push_u32_be(&mut v, transaction_id);
    push_u64_be(&mut v, connection_id);
    proof {
        assert(v@ =~= spec_connect_response(transaction_id, connection_id));
    }
    v
}

proof fn lemma_peers_bytes_len(ps: Seq<Peer>)
    ensures
        spec_peers_bytes(ps).len() == 6 * ps.len(),
    decreases ps.len(),
{
    if ps.len() > 0 {
        lemma_peers_bytes_len(ps.skip(1));
    }
}

proof fn lemma_peers_bytes_snoc(ps: Seq<Peer>, p: Peer)
    ensures
        spec_peers_bytes(ps.push(p)) == spec_peers_bytes(ps) + spec_peer_bytes(p),
    decreases ps.len(),
{
    if ps.len() == 0 {
        assert(ps.push(p)[0] == p);
        assert(ps.push(p).skip(1) =~= Seq::<Peer>::empty());
        assert(spec_peers_bytes(ps.push(p)) == spec_peer_bytes(p) + spec_peers_bytes(
            Seq::<Peer>::empty(),
        ));
        assert(spec_peers_bytes(ps.push(p)) =~= spec_peers_bytes(ps) + spec_peer_bytes(p));
    } else {
        let a = spec_peer_bytes(ps[0]);
        assert(ps.push(p)[0] == ps[0]);
        assert(ps.push(p).skip(1) =~= ps.skip(1).push(p));
        assert(spec_peers_bytes(ps.push(p)) == a + spec_peers_bytes(ps.skip(1).push(p)));
        lemma_peers_bytes_snoc(ps.skip(1), p);
        assert(spec_peers_bytes(ps.push(p)) == a + (spec_peers_bytes(ps.skip(1))
            + spec_peer_bytes(p)));
        assert(a + (spec_peers_bytes(ps.skip(1)) + spec_peer_bytes(p)) =~= (a + spec_peers_bytes(
            ps.skip(1),
        )) + spec_peer_bytes(p));
        assert(spec_peers_bytes(ps) == a + spec_peers_bytes(ps.skip(1)));
    }
}

pub fn encode_announce_response(
    transaction_id: u32,
    interval: u32,
    leechers: u32,
    seeders: u32,
    peers: &Vec<Peer>,
) -> (r: Vec<u8>)
    requires
        20 + 6 * peers@.len() <= usize::MAX,
    ensures
        r@ == spec_announce_response(transaction_id, interval, leechers, seeders, peers@),
{
    let mut v: Vec<u8> = Vec::new();
    push_u32_be(&mut v, ACTION_ANNOUNCE);
    push_u32_be(&mut v, transaction_id);
    push_u32_be(&mut v, interval);
    push_u32_be(&mut v, leechers);
    push_u32_be(&mut v, seeders);
    let ghost header = v@;
    proof {
        assert(spec_peers_bytes(peers@.take(0)) =~= Seq::<u8>::empty());
        assert(v@ =~= header + spec_peers_bytes(peers@.take(0)));
    }
    let mut i: usize = 0;
    while i < peers.len()
        invariant
            i <= peers@.len(),
            v@ == header + spec_peers_bytes(peers@.take(i as int)),
        decreases peers@.len() - i,
    {
        let p = peers[i];
        push_u32_be(&mut v, p.ip);
        push_u16_be(&mut v, p.port);
        proof {
            assert(peers@.take(i + 1) =~= peers@.take(i as int).push(peers@[i as int]));
            lemma_peers_bytes_snoc(peers@.take(i as int), peers@[i as int]);
            assert(v@ =~= header + spec_peers_bytes(peers@.take(i + 1)));
        }
        i = i + 1;
    }
    proof {
        assert(peers@.take(peers@.len() as int) =~= peers@);
        assert(v@ =~= spec_announce_response(transaction_id, interval, leechers, seeders, peers@));
    }
    v
}

pub fn encode_error_response(transaction_id: u32, message: &[u8]) -> (r: Vec<u8>)
    ensures
        r@ == spec_error_response(transaction_id, message@),
{
    let mut v: Vec<u8> = Vec::new();
    push_u32_be(&mut v, ACTION_ERROR);
    push_u32_be(&mut v, transaction_id);
    push_bytes(&mut v, message);
    proof {
        assert(v@ =~= spec_error_response(transaction_id, message@));
    }
    v
}

// ---------------------------------------------------------------------------
// Executable decoder. Never panics: every length is tested before a read.
// ---------------------------------------------------------------------------

pub fn decode(buf: &[u8], kind: ResponseKind) -> (r: Result<TrackerResponse, CodecError>)
    ensures
        match r {
            Ok(resp) => spec_decode(buf@, kind) == Ok::<ResponseModel, CodecError>(resp@),
            Err(e) => spec_decode(buf@, kind) == Err::<ResponseModel, CodecError>(e),
        },
{
    if buf.len() < 8 {
        return Err(CodecError::Truncated);
    }
    let action = read_u32_at(buf, 0);
    let txn = read_u32_at(buf, 4);
    if action == ACTION_ERROR {
        let mut message: Vec<u8> = Vec::new();
        let mut i: usize = 8;
        while i < buf.len()
            invariant
                8 <= i <= buf@.len(),
                message@ == buf@.subrange(8, i as int),
            decreases buf@.len() - i,
        {
            message.push(buf[i]);
            i = i + 1;
            proof {
                assert(message@ =~= buf@.subrange(8, i as int));
            }
        }
        proof {
            assert(message@ =~= buf@.skip(8));
        }
        return Ok(TrackerResponse::Error { transaction_id: txn, message });
    }
    match kind {
        ResponseKind::Connect => {
            if buf.len() != 16 {
                Err(CodecError::Truncated)
            } else if action != ACTION_CONNECT {
                Err(CodecError::UnexpectedAction)
            } else {
                let connection_id = read_u64_at(buf, 8);
                Ok(TrackerResponse::Connect { transaction_id: txn, connection_id })
            }
        },
        ResponseKind::Announce => {
            if buf.len() < 20 {
                return Err(CodecError::Truncated);
            }
            if (buf.len() - 20) % 6 != 0 {
                return Err(CodecError::Truncated);
            }
            if action != ACTION_ANNOUNCE {
                return Err(CodecError::UnexpectedAction);
            }
            let interval = read_u32_at(buf, 8);
            let leechers = read_u32_at(buf, 12);
            let seeders = read_u32_at(buf, 16);
            let len = buf.len();
            let n = (len - 20) / 6;
            let ghost body = buf@.skip(20);
            proof {
                assert(len - 20 == 6 * n) by (nonlinear_arith)
                    requires
                        len >= 20,
                        (len - 20) % 6 == 0,
                        n == (len - 20) / 6,
                ;
                assert(body.skip(0) =~= body);
                assert(Seq::<Peer>::empty() + spec_peers_of(body) =~= spec_peers_of(body));
            }
            let mut peers: Vec<Peer> = Vec::new();
            let mut i: usize = 0;
            while i < n
                invariant
                    i <= n,
                    len == buf@.len(),
                    len == 20 + 6 * n,
                    body == buf@.skip(20),
                    peers@.len() == i,
                    peers@ + spec_peers_of(body.skip(6 * i as int)) == spec_peers_of(body),
                decreases n - i,
            {
                proof {
                    assert(6 * (i as int) + 6 <= 6 * (n as int)) by (nonlinear_arith)
                        requires
                            i < n,
                    ;
                }
                let off = 20 + 6 * i;
                let ip = read_u32_at(buf, off);
                let port = read_u16_at(buf, off + 4);
                proof {
                    let rest = body.skip(6 * i as int);
                    assert(rest.len() == 6 * (n - i as int));
                    assert(rest.len() >= 6);
                    assert forall|k: int| 0 <= k < rest.len() implies rest[k] == buf@[20 + 6 * (
                    i as int) + k] by {}
                    assert(be32_at(rest, 0) == be32_at(buf@, off as int));
                    assert(be16_at(rest, 4) == be16_at(buf@, off as int + 4));
                    assert(rest.skip(6) =~= body.skip(6 * (i + 1)));
                    assert(spec_peers_of(rest) == seq![
                        Peer { ip: be32_at(rest, 0), port: be16_at(rest, 4) },
                    ] + spec_peers_of(body.skip(6 * (i + 1))));
                }
                peers.push(Peer { ip, port });
                proof {
                    assert(peers@ + spec_peers_of(body.skip(6 * (i + 1))) =~= spec_peers_of(body));
                }
                i = i + 1;
            }
            proof {
                assert(body.skip(6 * n as int) =~= Seq::<u8>::empty());
                assert(spec_peers_of(body.skip(6 * n as int)) =~= Seq::<Peer>::empty());
                assert(peers@ =~= spec_peers_of(body));
            }
            Ok(
                TrackerResponse::Announce {
                    transaction_id: txn,
                    interval,
                    leechers,
                    seeders,
                    peers,
                },
            )
        },
    }
}

} // verus!
