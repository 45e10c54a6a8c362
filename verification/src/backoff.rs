//! Reconnection backoff: delays grow monotonically within one failure
//! episode, never exceed a ceiling, and return to the initial value
//! once streaming has been healthy for long enough.

use vstd::prelude::*;

verus! {

/// Backoff state for one failure episode. All delays are milliseconds.
pub struct Backoff {
    /// The delay the first failure of an episode gets.
    pub initial_ms: u64,
    /// No delay ever exceeds this.
    pub ceiling_ms: u64,
    /// The delay the next failure will get.
    pub current_ms: u64,
}

impl Backoff {
    /// The shape every backoff value keeps.
    pub open spec fn wf(self) -> bool {
        &&& 1 <= self.initial_ms
        &&& self.initial_ms <= self.ceiling_ms
        &&& self.initial_ms <= self.current_ms
        &&& self.current_ms <= self.ceiling_ms
    }

    pub fn new(initial_ms: u64, ceiling_ms: u64) -> (b: Backoff)
        requires
            1 <= initial_ms <= ceiling_ms,
        ensures
            b.wf(),
            b.initial_ms == initial_ms,
            b.ceiling_ms == ceiling_ms,
            b.current_ms == initial_ms,
    {
        Backoff { initial_ms, ceiling_ms, current_ms: initial_ms }
    }

    /// The state after one delay has been handed out: the next delay
    /// doubles, capped at the ceiling.
    pub open spec fn stepped(self) -> Backoff {
        Backoff {
            current_ms: if 2 * self.current_ms <= self.ceiling_ms {
                (2 * self.current_ms) as u64
            } else {
                self.ceiling_ms
            },
            ..self
        }
    }

    /// Hand out the next delay of this episode and advance.
    pub fn next_delay(&mut self) -> (d: u64)
        requires
            old(self).wf(),
        ensures
            final(self).wf(),
            d == old(self).current_ms,
            *final(self) == old(self).stepped(),
            final(self).current_ms >= d,
    {
        let d = self.current_ms;
        if self.current_ms <= self.ceiling_ms / 2 {
            self.current_ms = 2 * self.current_ms;
        } else {
            self.current_ms = self.ceiling_ms;
        }
        d
    }

    /// Called after a sustained period of successful streaming: the
    /// next episode starts over at the initial delay.
    pub fn reset(&mut self)
        requires
            old(self).wf(),
        ensures
            final(self).wf(),
            final(self).current_ms == old(self).initial_ms,
            final(self).initial_ms == old(self).initial_ms,
            final(self).ceiling_ms == old(self).ceiling_ms,
    {
        self.current_ms = self.initial_ms;
    }
}

/// The delays `n` consecutive failures of one episode would be given,
/// starting from backoff state `b`.
pub open spec fn episode_delays(b: Backoff, n: nat) -> Seq<u64>
    decreases n,
{
    if n == 0 {
        Seq::empty()
    } else {
        seq![b.current_ms] + episode_delays(b.stepped(), (n - 1) as nat)
    }
}

/// Within one failure episode the delays never decrease, and none
/// exceeds the ceiling.
pub proof fn law_backoff_monotone(b: Backoff, n: nat)
    requires
        b.wf(),
    ensures
        episode_delays(b, n).len() == n,
        forall|i: int, j: int|
            0 <= i <= j < n ==> episode_delays(b, n)[i] <= episode_delays(b, n)[j],
        forall|i: int| 0 <= i < n ==> episode_delays(b, n)[i] <= b.ceiling_ms,
    decreases n,
{
    if n > 0 {
        assert(b.stepped().wf());
        law_backoff_monotone(b.stepped(), (n - 1) as nat);
        let s = episode_delays(b, n);
        let t = episode_delays(b.stepped(), (n - 1) as nat);
        assert(s[0] == b.current_ms);
        assert forall|i: int| 1 <= i < n implies s[i] == t[i - 1] by {}
        assert(b.current_ms <= b.stepped().current_ms);
        assert forall|i: int, j: int| 0 <= i <= j < n implies s[i] <= s[j] by {
            if i == 0 && j > 0 {
                assert(t[0] == b.stepped().current_ms);
                assert(t[0] <= t[j - 1]);
                assert(s[j] == t[j - 1]);
            } else if i > 0 {
                assert(s[i] == t[i - 1]);
                assert(s[j] == t[j - 1]);
                assert(t[i - 1] <= t[j - 1]);
            }
        }
    }
}

} // verus!
