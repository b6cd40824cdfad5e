//! Session identifiers: the correlation key between requests of one client.

use vstd::prelude::*;

verus! {

/// Marks the bytes a session-identifying response header may hold: printable
/// ASCII, and at least one byte. A response header whose value does not meet
/// this is treated as carrying no session identifier at all.
pub open spec fn is_session_token(bytes: Seq<u8>) -> bool {
    bytes.len() > 0 && (forall|i: int| 0 <= i < bytes.len() ==> 0x21 <= #[trigger] bytes[i]
        <= 0x7e)
}

/// Runtime check matching [`is_session_token`].
pub fn check_session_token(bytes: &[u8]) -> (r: bool)
    ensures
        r == is_session_token(bytes@),
{
    let n: usize = bytes.len();
    if n == 0 {
        return false;
    }
    let mut i: usize = 0;
    while i < n
        invariant
            0 <= i <= n,
            n == bytes@.len(),
            forall|j: int| 0 <= j < i ==> 0x21 <= #[trigger] bytes@[j] <= 0x7e,
        decreases n - i,
    {
        let b: u8 = bytes[i];
        if b < 0x21 || b > 0x7e {
            return false;
        }
        i = i + 1;
    }
    true
}

/// An opaque token assigned by the session layer, unique per logical client
/// session and stable for the session's lifetime. The server learns it only
/// when the first response of the session is formed.
///
/// Identifiers are compared by exact byte equality; the library never reads
/// meaning into the bytes.
pub struct SessionId {
    bytes: Vec<u8>,
}

impl View for SessionId {
    type V = Seq<u8>;

    closed spec fn view(&self) -> Seq<u8> {
        self.bytes@
    }
}

impl SessionId {
    /// Wraps raw header bytes as a session identifier.
    pub fn from_bytes(bytes: Vec<u8>) -> (r: SessionId)
        ensures
            r@ == bytes@,
    {
        SessionId { bytes }
    }

    /// The identifier's bytes, for a transport layer that echoes them back.
    pub fn as_bytes(&self) -> (r: &[u8])
        ensures
            r@ == self@,
    {
        self.bytes.as_slice()
    }

    /// Byte-for-byte equality with another identifier.
    pub fn same_session(&self, other: &SessionId) -> (r: bool)
        ensures
            r == (self@ == other@),
    {
        if self.bytes.len() != other.bytes.len() {
            return false;
        }
        let mut i: usize = 0;
        while i < self.bytes.len()
            invariant
                0 <= i <= self.bytes@.len(),
                self.bytes@.len() == other.bytes@.len(),
                forall|j: int| 0 <= j < i ==> self.bytes@[j] == other.bytes@[j],
            decreases self.bytes@.len() - i,
        {
            if self.bytes[i] != other.bytes[i] {
                return false;
            }
            i = i + 1;
        }
        proof {
            assert(self@ =~= other@);
        }
        true
    }
}

} // verus!
