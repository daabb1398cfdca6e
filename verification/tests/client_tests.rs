use udp_tracker::client::{ClientState, ErrorKind, TrackerClient, TrackerError, TransportError};
use udp_tracker::codec::{AnnounceParams, Peer};
use udp_tracker::fake::{FakeReply, FakeTransport};
use udp_tracker::retry::{timeout_for_attempt, RetryState};
use udp_tracker::session::{ConnectionState, TransactionRegistry};

fn sample_params() -> AnnounceParams {
    AnnounceParams {
        info_hash: vec![9u8; 20],
        downloaded: 0,
        left: 5000,
        uploaded: 0,
        event: 0,
        ip: 0,
        key: 1,
        num_want: 0xFFFFFFFF,
        port: 6881,
    }
}

#[test]
fn connect_stores_connection_id() {
    let mut fake = FakeTransport::new();
    fake.push_reply(FakeReply::ConnectGrant(42));
    let mut client = TrackerClient::new(fake);
    assert_eq!(client.connect(1000), Ok(()));
    assert_eq!(client.conn.connection_id, Some(42));
    assert_eq!(client.conn.issued_at, 1000);
    assert!(matches!(client.state, ClientState::Connected));
    assert_eq!(client.transport.sent.len(), 1);
    let req = &client.transport.sent[0];
    assert_eq!(req.len(), 16);
    assert_eq!(&req[0..12], &[0x00, 0x00, 0x04, 0x17, 0x27, 0x10, 0x19, 0x80, 0, 0, 0, 0]);
}

#[test]
fn announce_end_to_end() {
    let peers = vec![
        Peer { ip: 0x0A000001, port: 6881 },
        Peer { ip: 0xC0A80002, port: 51413 },
    ];
    let mut fake = FakeTransport::new();
    fake.push_reply(FakeReply::ConnectGrant(42));
    fake.push_reply(FakeReply::AnnounceReply {
        interval: 1800,
        leechers: 3,
        seeders: 7,
        peers: peers.clone(),
    });
    let mut client = TrackerClient::new(fake);
    assert_eq!(client.connect(1000), Ok(()));
    let result = client.announce(&sample_params(), 1000).expect("announce should succeed");
    assert_eq!(result.interval, 1800);
    assert_eq!(result.leechers, 3);
    assert_eq!(result.seeders, 7);
    assert_eq!(result.peers, peers);
    assert!(matches!(client.state, ClientState::Connected));
    // One connect request, one announce request; the announce is 98 bytes
    // and reuses the granted connection id.
    assert_eq!(client.transport.sent.len(), 2);
    assert_eq!(client.transport.sent[1].len(), 98);
    assert_eq!(&client.transport.sent[1][0..8], &[0, 0, 0, 0, 0, 0, 0, 42]);
}

#[test]
fn rejection_surfaces_immediately_without_retry() {
    let mut fake = FakeTransport::new();
    fake.push_reply(FakeReply::ErrorReply(b"denied".to_vec()));
    let mut client = TrackerClient::new(fake);
    match client.connect(0) {
        Err(TrackerError::Rejected(message)) => assert_eq!(message, b"denied".to_vec()),
        other => panic!("expected rejection, got {:?}", other),
    }
    // Zero retries: exactly one request went out, one receive was attempted.
    assert_eq!(client.transport.sent.len(), 1);
    assert_eq!(client.transport.recv_timeouts.len(), 1);
    assert_eq!(client.conn.connection_id, None);
    assert_eq!(client.state, ClientState::Failed(ErrorKind::Rejected));
}

#[test]
fn rejection_during_announce() {
    let mut fake = FakeTransport::new();
    fake.push_reply(FakeReply::ErrorReply(b"unknown torrent".to_vec()));
    let mut client = TrackerClient::new(fake);
    client.conn.set(5, 100);
    match client.announce(&sample_params(), 100) {
        Err(TrackerError::Rejected(message)) => assert_eq!(message, b"unknown torrent".to_vec()),
        other => panic!("expected rejection, got {:?}", other),
    }
    assert_eq!(client.transport.sent.len(), 1);
}

#[test]
fn mismatched_transaction_id_leaves_connection_state_alone() {
    let mut fake = FakeTransport::new();
    for _ in 0..8 {
        fake.push_reply(FakeReply::ConnectGrantBadTxn(9));
    }
    let mut client = TrackerClient::new(fake);
    assert_eq!(client.connect(50), Err(TrackerError::TimedOut));
    // The forged responses were all discarded and counted as timeouts.
    assert_eq!(client.conn.connection_id, None);
    assert_eq!(client.conn, ConnectionState::new());
    assert_eq!(client.transport.sent.len(), 8);
    assert_eq!(
        client.transport.recv_timeouts,
        vec![15, 30, 60, 120, 240, 480, 960, 1920]
    );
}

#[test]
fn silent_tracker_exhausts_exact_schedule() {
    let mut client = TrackerClient::new(FakeTransport::new());
    assert_eq!(client.connect(0), Err(TrackerError::TimedOut));
    // Identical bytes re-sent every attempt.
    assert_eq!(client.transport.sent.len(), 8);
    for i in 1..8 {
        assert_eq!(client.transport.sent[i], client.transport.sent[0]);
    }
    assert_eq!(
        client.transport.recv_timeouts,
        vec![15, 30, 60, 120, 240, 480, 960, 1920]
    );
    assert_eq!(client.state, ClientState::Failed(ErrorKind::TimedOut));
}

#[test]
fn garbage_datagram_is_ignored() {
    let mut fake = FakeTransport::new();
    fake.push_reply(FakeReply::Bytes(vec![1, 2, 3]));
    fake.push_reply(FakeReply::ConnectGrant(8));
    let mut client = TrackerClient::new(fake);
    assert_eq!(client.connect(0), Ok(()));
    assert_eq!(client.conn.connection_id, Some(8));
    // The malformed datagram burned one attempt, nothing more.
    assert_eq!(client.transport.sent.len(), 2);
}

#[test]
fn connect_shaped_reply_to_announce_is_ignored() {
    let mut fake = FakeTransport::new();
    // Cross-talk: a connect response arrives while an announce is in flight.
    fake.push_reply(FakeReply::ConnectGrant(123));
    fake.push_reply(FakeReply::AnnounceReply {
        interval: 60,
        leechers: 0,
        seeders: 0,
        peers: vec![],
    });
    let mut client = TrackerClient::new(fake);
    client.conn.set(4, 0);
    client.announce(&sample_params(), 0).expect("announce should succeed");
    assert_eq!(client.conn.connection_id, Some(4));
    assert_eq!(client.transport.sent.len(), 2);
}

#[test]
fn connect_succeeds_on_a_later_attempt() {
    let mut fake = FakeTransport::new();
    fake.push_reply(FakeReply::Timeout);
    fake.push_reply(FakeReply::ConnectGrantBadTxn(1));
    fake.push_reply(FakeReply::ConnectGrant(42));
    let mut client = TrackerClient::new(fake);
    assert_eq!(client.connect(5), Ok(()));
    assert_eq!(client.conn.connection_id, Some(42));
    // Three sends of identical bytes, with the backoff growing each attempt.
    assert_eq!(client.transport.sent.len(), 3);
    assert_eq!(client.transport.sent[1], client.transport.sent[0]);
    assert_eq!(client.transport.sent[2], client.transport.sent[0]);
    assert_eq!(client.transport.recv_timeouts, vec![15, 30, 60]);
}

#[test]
fn stale_connection_upgrades_exactly_once() {
    let mut fake = FakeTransport::new();
    fake.push_reply(FakeReply::ConnectGrant(7));
    fake.push_reply(FakeReply::AnnounceReply {
        interval: 60,
        leechers: 0,
        seeders: 1,
        peers: vec![Peer { ip: 1, port: 2 }],
    });
    let mut client = TrackerClient::new(fake);
    client.conn.set(99, 100);
    // 100 + 60 < 200: the stored id is stale, so one connect goes first.
    let result = client.announce(&sample_params(), 200).expect("announce should succeed");
    assert_eq!(result.peers, vec![Peer { ip: 1, port: 2 }]);
    assert_eq!(client.conn.connection_id, Some(7));
    assert_eq!(client.conn.issued_at, 200);
    assert_eq!(client.transport.sent.len(), 2);
    assert_eq!(client.transport.sent[0].len(), 16); // the implicit connect
    assert_eq!(client.transport.sent[1].len(), 98); // then the announce
}

#[test]
fn valid_connection_is_reused_without_connect() {
    let mut fake = FakeTransport::new();
    fake.push_reply(FakeReply::AnnounceReply {
        interval: 60,
        leechers: 0,
        seeders: 0,
        peers: vec![],
    });
    let mut client = TrackerClient::new(fake);
    client.conn.set(99, 100);
    // 150 <= 100 + 60: still valid, no connect round-trip.
    client.announce(&sample_params(), 150).expect("announce should succeed");
    assert_eq!(client.transport.sent.len(), 1);
    assert_eq!(client.transport.sent[0].len(), 98);
    assert_eq!(&client.transport.sent[0][0..8], &[0, 0, 0, 0, 0, 0, 0, 99]);
    assert_eq!(client.conn.connection_id, Some(99));
    assert_eq!(client.conn.issued_at, 100);
}

#[test]
fn connection_validity_window() {
    let mut c = ConnectionState::new();
    assert!(!c.is_valid(0));
    c.set(1, 100);
    assert!(c.is_valid(100));
    assert!(c.is_valid(160)); // exactly at the window's edge
    assert!(!c.is_valid(161)); // one second past it
    assert!(c.is_valid(50)); // a clock that went backwards is not an expiry
    c.clear();
    assert!(!c.is_valid(100));
}

#[test]
fn io_fault_is_not_retried() {
    let mut fake = FakeTransport::new();
    fake.push_reply(FakeReply::IoFault);
    let mut client = TrackerClient::new(fake);
    assert_eq!(
        client.connect(0),
        Err(TrackerError::Transport(TransportError::Io))
    );
    assert_eq!(client.transport.sent.len(), 1);
}

#[test]
fn transaction_registry_tracks_outstanding() {
    let mut reg = TransactionRegistry::new();
    assert_eq!(reg.outstanding, None);
    let id = reg.issue();
    assert_eq!(reg.outstanding, Some(id));
    assert!(TransactionRegistry::validate(id, id));
    assert!(!TransactionRegistry::validate(id.wrapping_add(1), id));
    reg.clear();
    assert_eq!(reg.outstanding, None);
}

#[test]
fn peer_id_has_client_prefix_and_digits() {
    let client = TrackerClient::new(FakeTransport::new());
    assert_eq!(client.peer_id.len(), 20);
    assert_eq!(&client.peer_id[0..8], b"-PP0001-");
    for &b in &client.peer_id[8..] {
        assert!(b.is_ascii_digit());
    }
}

#[test]
fn retry_schedule_values() {
    let expected = [15u64, 30, 60, 120, 240, 480, 960, 1920];
    for (n, &secs) in expected.iter().enumerate() {
        assert_eq!(timeout_for_attempt(n as u32), secs);
    }
}

#[test]
fn retry_state_walks_the_schedule_once() {
    let mut retry = RetryState::new();
    let mut seen = Vec::new();
    while retry.can_attempt() {
        seen.push(retry.current_timeout());
        retry.advance();
    }
    assert_eq!(seen, vec![15, 30, 60, 120, 240, 480, 960, 1920]);
}
