//! Checkpoint commit tracking. Per partition the committer remembers
//! the offset most recently committed; within a partition, cursors
//! reach it in the order the broker produced them (the dispatch queue
//! preserves arrival order), so serializing commits and skipping a
//! cursor equal to the last committed one keeps the broker-observed
//! commit sequence non-decreasing in broker order. Cursor tokens are
//! opaque and compared only for equality.

use vstd::prelude::*;
use crate::cursor::{copy_bytes, eq_bytes, Cursor};
use crate::errors::{retry_class, retry_class_spec, ErrorKind, RetryClass};

verus! {

/// What the committer asks its caller to do after a failed commit
/// attempt for one cursor.
#[derive(Clone, Copy, Debug, PartialEq, Eq, Structural)]
pub enum CommitFailureAction {
    /// Transient failure within the attempt bound: try the same cursor
    /// again after a backoff delay.
    Retry,
    /// The broker rejected this cursor as stale or unprocessable: do
    /// not resubmit it; count a checkpointing error and rely on a
    /// later, fresher cursor.
    GiveUp,
    /// Structural or authorization failure, or the attempt bound is
    /// exhausted: stop the engine and surface the error.
    Fatal,
}

/// The offset last committed for partition `p`, given the committer's
/// record of (partition, offset) entries with the newest first.
pub open spec fn last_committed(entries: Seq<(Vec<u8>, Vec<u8>)>, p: Seq<u8>) -> Option<Seq<u8>>
    decreases entries.len(),
{
    if entries.len() == 0 {
        None
    } else if entries[0].0@ == p {
        Some(entries[0].1@)
    } else {
        last_committed(entries.drop_first(), p)
    }
}

/// Tracks, per partition, the highest cursor successfully committed,
/// and decides how commit failures are handled.
pub struct CheckpointCommitter {
    /// Commit record, newest entry first; the first entry for a
    /// partition is its last committed offset.
    pub entries: Vec<(Vec<u8>, Vec<u8>)>,
    /// How many transient failures one cursor may see before the
    /// committer gives the engine up.
    pub retry_limit: u64,
}

impl CheckpointCommitter {
    pub open spec fn committed(self) -> Seq<(Vec<u8>, Vec<u8>)> {
        self.entries@
    }

    pub open spec fn spec_retry_limit(self) -> u64 {
        self.retry_limit
    }

    pub fn new(retry_limit: u64) -> (c: CheckpointCommitter)
        ensures
            c.committed() == Seq::<(Vec<u8>, Vec<u8>)>::empty(),
            c.spec_retry_limit() == retry_limit,
    {
        CheckpointCommitter { entries: Vec::new(), retry_limit }
    }

    /// Whether a commit call must be sent for this cursor: a cursor
    /// whose offset equals the partition's last committed offset is a
    /// no-op and is never sent.
    pub fn should_send(&self, cursor: &Cursor) -> (send: bool)
        ensures
            send <==> last_committed(self.committed(), cursor.partition@)
                != Some(cursor.offset@),
    {
        let n = self.entries.len();
        let mut i: usize = 0;
        proof {
            assert(self.committed().subrange(0, n as int) =~= self.committed());
        }
        while i < n
            invariant
                n == self.committed().len(),
                i <= n,
                last_committed(self.committed(), cursor.partition@) == last_committed(
                    self.committed().subrange(i as int, n as int),
                    cursor.partition@,
                ),
                forall|j: int| 0 <= j < i ==> self.committed()[j].0@ != cursor.partition@,
            decreases n - i,
        {
            let entry = &self.entries[i];
            if eq_bytes(&entry.0, &cursor.partition) {
                proof {
                    let rest = self.committed().subrange(i as int, n as int);
                    assert(rest[0].0@ == cursor.partition@);
                }
                return !eq_bytes(&entry.1, &cursor.offset);
            }
            proof {
                let rest = self.committed().subrange(i as int, n as int);
                assert(rest.drop_first() =~= self.committed().subrange(i + 1, n as int));
            }
            i += 1;
        }
        proof {
            assert(self.committed().subrange(n as int, n as int).len() == 0);
        }
        true
    }

    /// Record that the broker accepted a commit for this cursor: its
    /// offset becomes the partition's last committed offset, and every
    /// other partition's record is unchanged.
    pub fn record_success(&mut self, cursor: &Cursor)
        ensures
            final(self).spec_retry_limit() == old(self).spec_retry_limit(),
            last_committed(final(self).committed(), cursor.partition@) == Some(cursor.offset@),
            forall|q: Seq<u8>|
                q != cursor.partition@ ==> last_committed(final(self).committed(), q)
                    == last_committed(old(self).committed(), q),
    {
        let entry = (copy_bytes(&cursor.partition), copy_bytes(&cursor.offset));
        self.entries.insert(0, entry);
        proof {
            assert(self.entries@.drop_first() =~= old(self).entries@);
        }
    }

    /// How a failed commit attempt for one cursor is handled, given its
    /// classified kind and how many attempts the cursor has seen.
    pub open spec fn failure_action_spec(self, kind: ErrorKind, attempts: u64) -> CommitFailureAction {
        match retry_class_spec(kind) {
            RetryClass::Transient => if attempts < self.retry_limit {
                CommitFailureAction::Retry
            } else {
                CommitFailureAction::Fatal
            },
            RetryClass::PerCursor => CommitFailureAction::GiveUp,
            RetryClass::Fatal => CommitFailureAction::Fatal,
        }
    }

    pub fn on_failure(&self, kind: ErrorKind, attempts: u64) -> (a: CommitFailureAction)
        ensures
            a == self.failure_action_spec(kind, attempts),
    {
        match retry_class(kind) {
            RetryClass::Transient => if attempts < self.retry_limit {
                CommitFailureAction::Retry
            } else {
                CommitFailureAction::Fatal
            },
            RetryClass::PerCursor => CommitFailureAction::GiveUp,
            RetryClass::Fatal => CommitFailureAction::Fatal,
        }
    }
}

/// `a` is `b` with zero or more elements deleted, order kept.
pub open spec fn is_subsequence<T>(a: Seq<T>, b: Seq<T>) -> bool
    decreases a.len() + b.len(),
{
    if a.len() == 0 {
        true
    } else if b.len() == 0 {
        false
    } else {
        (a[0] == b[0] && is_subsequence(a.drop_first(), b.drop_first())) || is_subsequence(
            a,
            b.drop_first(),
        )
    }
}

/// The offsets actually sent to the broker when the offsets `offs`
/// reach the committer in order on one partition whose last committed
/// offset is `last`: an offset equal to the current last committed one
/// is skipped, any other is sent and becomes the last committed.
pub open spec fn sent_on_partition(last: Option<Seq<u8>>, offs: Seq<Seq<u8>>) -> Seq<Seq<u8>>
    decreases offs.len(),
{
    if offs.len() == 0 {
        Seq::empty()
    } else if last == Some(offs[0]) {
        sent_on_partition(last, offs.drop_first())
    } else {
        seq![offs[0]] + sent_on_partition(Some(offs[0]), offs.drop_first())
    }
}

/// On one partition, the commit calls the broker observes are a
/// subsequence of the offsets the committer was given, in the same
/// order — so when the given offsets are non-decreasing in broker
/// order, the observed commits are too — and an offset equal to the
/// last committed one is never sent: the first send differs from the
/// initial last-committed offset, and no send repeats its predecessor.
pub proof fn law_commit_order(last: Option<Seq<u8>>, offs: Seq<Seq<u8>>)
    ensures
        is_subsequence(sent_on_partition(last, offs), offs),
        sent_on_partition(last, offs).len() > 0 ==> Some(sent_on_partition(last, offs)[0])
            != last,
        forall|i: int|
            0 <= i < sent_on_partition(last, offs).len() - 1 ==> #[trigger] sent_on_partition(
                last,
                offs,
            )[i] != sent_on_partition(last, offs)[i + 1],
    decreases offs.len(),
{
    let s = sent_on_partition(last, offs);
    if offs.len() == 0 {
    } else if last == Some(offs[0]) {
        law_commit_order(last, offs.drop_first());
    } else {
        let rest = sent_on_partition(Some(offs[0]), offs.drop_first());
        law_commit_order(Some(offs[0]), offs.drop_first());
        assert(s == seq![offs[0]] + rest);
        assert(s[0] == offs[0]);
        assert(s.drop_first() =~= rest);
        assert forall|i: int| 0 <= i < s.len() - 1 implies #[trigger] s[i] != s[i + 1] by {
            if i == 0 {
                if rest.len() > 0 {
                    assert(s[1] == rest[0]);
                    assert(Some(rest[0]) != Some(offs[0]));
                }
            } else {
                assert(s[i] == rest[i - 1]);
                assert(s[i + 1] == rest[i]);
            }
        }
    }
}

} // verus!
