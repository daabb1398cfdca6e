//! An in-memory transport for exercising the client without a network:
//! it logs what was sent, answers from a script, and can patch the
//! transaction id of the request it is answering into the reply.

use vstd::prelude::*;

use crate::client::{NetClient, TransportError};
use crate::codec::{
    encode_announce_response, encode_connect_response, encode_error_response, Peer,
};
use crate::wire::{copy_bytes, read_u32_at};

verus! {

/// One scripted reply. Both requests carry their transaction id at bytes
/// 12..16, so the echoing variants read it from the last sent datagram.
pub enum FakeReply {
    /// Hand back exactly these bytes.
    Bytes(Vec<u8>),
    /// A well-formed connect response granting this connection id, with the
    /// transaction id echoed from the request.
    ConnectGrant(u64),
    /// As `ConnectGrant`, but with the echoed transaction id flipped, so it
    /// never matches the outstanding request.
    ConnectGrantBadTxn(u64),
    /// A well-formed announce response with the transaction id echoed.
    AnnounceReply { interval: u32, leechers: u32, seeders: u32, peers: Vec<Peer> },
    /// An error frame with this message and the transaction id echoed.
    ErrorReply(Vec<u8>),
    /// The deadline passes without a datagram.
    Timeout,
    /// The socket fails.
    IoFault,
}

/// The in-memory transport: a script of replies consumed in order (then
/// timeouts for ever), plus logs of every sent datagram and every receive
/// deadline the client asked for.
pub struct FakeTransport {
    pub script: Vec<FakeReply>,
    pub next: usize,
    pub sent: Vec<Vec<u8>>,
    pub recv_timeouts: Vec<u64>,
}

impl FakeTransport {
    pub fn new() -> (r: Self)
        ensures
            r.script@.len() == 0,
            r.next == 0,
            r.sent@.len() == 0,
            r.recv_timeouts@.len() == 0,
    {
        FakeTransport { script: Vec::new(), next: 0, sent: Vec::new(), recv_timeouts: Vec::new() }
    }

    pub fn push_reply(&mut self, reply: FakeReply)
        ensures
            final(self).script@ == old(self).script@.push(reply),
            final(self).next == old(self).next,
            final(self).sent == old(self).sent,
            final(self).recv_timeouts == old(self).recv_timeouts,
    {
        self.script.push(reply);
    }

    /// The transaction id of the last sent request, or 0 when nothing
    /// sensible was sent; both request layouts keep it at bytes 12..16.
    fn last_sent_txn(&self) -> (r: u32) {
        if self.sent.len() == 0 {
            return 0;
        }
        let last = &self.sent[self.sent.len() - 1];
        if last.len() < 16 {
            return 0;
        }
        read_u32_at(last.as_slice(), 12)
    }
}

impl NetClient for FakeTransport {
    fn send(&mut self, data: &Vec<u8>) -> (r: Result<(), TransportError>) {
        let copy = copy_bytes(data.as_slice());
        self.sent.push(copy);
        Ok(())
    }

    fn recv(&mut self, timeout_secs: u64) -> (r: Result<Vec<u8>, TransportError>) {
        self.recv_timeouts.push(timeout_secs);
        if self.next >= self.script.len() {
            return Err(TransportError::Timeout);
        }
        let txn = self.last_sent_txn();
        let index = self.next;
        self.next = self.next + 1;
        match &self.script[index] {
            FakeReply::Bytes(bytes) => Ok(copy_bytes(bytes.as_slice())),
            FakeReply::ConnectGrant(connection_id) => Ok(
                encode_connect_response(txn, *connection_id),
            ),
            FakeReply::ConnectGrantBadTxn(connection_id) => Ok(
                encode_connect_response(txn ^ 1, *connection_id),
            ),
            FakeReply::AnnounceReply { interval, leechers, seeders, peers } => {
                if peers.len() > 1000 {
                    // Scripts stay small; an oversize one acts as a lost packet.
                    Err(TransportError::Timeout)
                } else {
                    Ok(encode_announce_response(txn, *interval, *leechers, *seeders, peers))
                }
            },
            FakeReply::ErrorReply(message) => Ok(encode_error_response(txn, message.as_slice())),
            FakeReply::Timeout => Err(TransportError::Timeout),
            FakeReply::IoFault => Err(TransportError::Io),
        }
    }
}

} // verus!
