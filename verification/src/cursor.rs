//! The position and delivery value types: cursors, batches and the
//! subscription identifier. Cursor tokens are broker-assigned and
//! opaque; the engine keeps them as the raw bytes found on the wire and
//! compares them only for equality, so they round-trip into commit
//! requests exactly as received.

use vstd::prelude::*;

verus! {

/// A position within one partition of one event type: a partition token
/// and an offset token, both opaque byte strings assigned by the broker.
pub struct Cursor {
    pub partition: Vec<u8>,
    pub offset: Vec<u8>,
}

impl Cursor {
    pub fn new(partition: Vec<u8>, offset: Vec<u8>) -> (c: Cursor)
        ensures
            c.partition == partition,
            c.offset == offset,
    {
        Cursor { partition, offset }
    }

    /// A fresh cursor holding the same two tokens.
    pub fn duplicate(&self) -> (c: Cursor)
        ensures
            c.partition@ == self.partition@,
            c.offset@ == self.offset@,
    {
        Cursor { partition: copy_bytes(&self.partition), offset: copy_bytes(&self.offset) }
    }
}

/// One delivery unit: the cursor it advances to, plus the raw bytes of
/// the event array exactly as framed on the wire. Event payloads are
/// opaque to the engine and handed to the handler unparsed.
pub struct Batch {
    pub cursor: Cursor,
    pub events: Vec<u8>,
}

/// The broker-side identifier the engine streams against.
pub struct SubscriptionId(pub String);

/// True when the two byte strings hold the same bytes.
pub fn eq_bytes(a: &Vec<u8>, b: &Vec<u8>) -> (r: bool)
    ensures
        r <==> a@ == b@,
{
    if a.len() != b.len() {
        assert(a@ != b@);
        return false;
    }
    let n = a.len();
    let mut i: usize = 0;
    while i < n
        invariant
            n == a@.len(),
            n == b@.len(),
            i <= n,
            forall|j: int| 0 <= j < i ==> a@[j] == b@[j],
        decreases n - i,
    {
        if a[i] != b[i] {
            return false;
        }
        i += 1;
    }
    assert(a@ =~= b@);
    true
}

/// A fresh byte string holding the same bytes.
pub fn copy_bytes(a: &Vec<u8>) -> (r: Vec<u8>)
    ensures
        r@ == a@,
{
    let mut r: Vec<u8> = Vec::new();
    let n = a.len();
    let mut i: usize = 0;
    while i < n
        invariant
            n == a@.len(),
            i <= n,
            r@.len() == i,
            forall|j: int| 0 <= j < i ==> r@[j] == a@[j],
        decreases n - i,
    {
        r.push(a[i]);
        i += 1;
    }
    assert(r@ =~= a@);
    r
}

} // verus!
