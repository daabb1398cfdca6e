//! Per-session state: the server-issued connection id with its validity
//! window, and the transaction ids that correlate responses to requests.

use vstd::prelude::*;

verus! {

/// A connection id expires this many seconds after it was issued.
pub const CONNECTION_ID_WINDOW_SECS: u64 = 60;

/// The server-issued connection id and the moment it was received.
/// Mutated only by a successful connect exchange, or cleared.
#[derive(Clone, Copy, Debug, PartialEq, Eq, Structural)]
pub struct ConnectionState {
    pub connection_id: Option<u64>,
    pub issued_at: u64,
}

impl ConnectionState {
    /// A connection id is usable at `now` if one is present and `now` lies
    /// within the validity window of its issuance.
    pub open spec fn valid_spec(self, now: u64) -> bool {
        self.connection_id is Some && now <= self.issued_at + CONNECTION_ID_WINDOW_SECS
    }

    pub fn new() -> (r: Self)
        ensures
            r.connection_id is None,
            r.issued_at == 0,
    {
        ConnectionState { connection_id: None, issued_at: 0 }
    }

    pub fn is_valid(&self, now: u64) -> (r: bool)
        ensures
            r == self.valid_spec(now),
    {
        match self.connection_id {
            None => false,
            Some(_) => now <= self.issued_at || now - self.issued_at
                <= CONNECTION_ID_WINDOW_SECS,
        }
    }

    pub fn set(&mut self, connection_id: u64, now: u64)
        ensures
            *final(self) == (ConnectionState { connection_id: Some(connection_id), issued_at: now }),
    {
        self.connection_id = Some(connection_id);
        self.issued_at = now;
    }

    pub fn clear(&mut self)
        ensures
            *final(self) == (ConnectionState { connection_id: None, issued_at: 0 }),
    {
        self.connection_id = None;
        self.issued_at = 0;
    }
}

/// Law: a connection id issued longer than the validity window before `now`
/// is invalid, whatever id is stored.
pub proof fn lemma_stale_connection_invalid(c: ConnectionState, now: u64)
    requires
        c.issued_at + CONNECTION_ID_WINDOW_SECS < now,
    ensures
        !c.valid_spec(now),
{
}

/// Relies on rand::random: a uniformly random value; nothing is promised
/// of the result, so callers must work whatever comes back.
#[verifier::external_body]
fn random_u32() -> u32 {
    rand::random::<u32>()
}

/// Relies on rand::random, as `random_u32` does.
#[verifier::external_body]
pub(crate) fn random_digit() -> (r: u8)
    ensures
        r < 10,
{
    (rand::random::<u32>() % 10) as u8
}

/// Issues per-request transaction ids from an unpredictable source and
/// remembers the one outstanding request.
pub struct TransactionRegistry {
    pub outstanding: Option<u32>,
}

impl TransactionRegistry {
    pub fn new() -> (r: Self)
        ensures
            r.outstanding is None,
    {
        TransactionRegistry { outstanding: None }
    }

    /// Draws a fresh transaction id and records it as the outstanding one.
    /// On a detected collision with the previous outstanding id the draw is
    /// repeated once; a residual collision is acceptable by design.
    pub fn issue(&mut self) -> (r: u32)
        ensures
            final(self).outstanding == Some(r),
    {
        let mut id = random_u32();
        if let Some(current) = self.outstanding {
            if id == current {
                id = random_u32();
            }
        }
        self.outstanding = Some(id);
        id
    }

    /// A response is trusted only if its transaction field equals the id of
    /// the request currently in flight.
    pub fn validate(candidate: u32, expected: u32) -> (r: bool)
        ensures
            r == (candidate == expected),
    {
        candidate == expected
    }

    /// Forgets the outstanding request, once it has been answered or given up.
    pub fn clear(&mut self)
        ensures
            final(self).outstanding is None,
    {
        self.outstanding = None;
    }
}

} // verus!
