//! Rate counters and bounded distribution recorders, grouped per
//! logical component (handler, stream, checkpointing). A recorder owns
//! a real `hdrsample` histogram for percentile queries and beside it
//! tracks exact integer statistics (count, min, max, sum) that the
//! contracts speak of. Recording a value above the recorder's ceiling
//! clamps it to the ceiling instead of failing the caller: metrics must
//! never destabilize the data path. Decayed per-window rates are
//! floating-point and belong to the reporting layer; the meters here
//! carry the exact counts they are derived from.

use vstd::prelude::*;
use vstd::multiset::Multiset;

verus! {

/// Owns one `hdrsample::Histogram` recording `u64` values. The
/// histogram is opaque to the verifier; what it holds is named by
/// `hist_values` and `hist_ceiling`, and it is touched only through
/// the trusted functions below.
#[verifier::external_body]
pub struct Histo {
    inner: hdrsample::Histogram<u64>,
}

/// The multiset of values a histogram holds.
pub uninterp spec fn hist_values(h: Histo) -> Multiset<u64>;

/// The highest value a histogram was configured to track.
pub uninterp spec fn hist_ceiling(h: Histo) -> u64;

/// Relies on hdrsample::Histogram::new_with_max: builds an empty
/// histogram tracking values from 1 up to `ceiling` at three
/// significant figures; construction succeeds for every `ceiling >= 2`.
#[verifier::external_body]
fn new_histogram(ceiling: u64) -> (h: Histo)
    requires
        2 <= ceiling,
    ensures
        hist_values(h) == Multiset::<u64>::empty(),
        hist_ceiling(h) == ceiling,
{
    Histo { inner: hdrsample::Histogram::new_with_max(ceiling, 3).unwrap() }
}

/// Relies on hdrsample::Histogram::record: a value no larger than the
/// configured maximum is always accepted and joins the recorded
/// distribution; the configuration is unchanged.
#[verifier::external_body]
fn record_value(h: &mut Histo, v: u64)
    requires
        v <= hist_ceiling(*old(h)),
    ensures
        hist_values(*final(h)) == hist_values(*old(h)).insert(v),
        hist_ceiling(*final(h)) == hist_ceiling(*old(h)),
{
    let _ = h.inner.record(v);
}

/// Relies on hdrsample::Histogram::len: the total number of recorded
/// values (their multiplicities summed), exact below the counter's
/// saturation point.
#[verifier::external_body]
fn histogram_len(h: &Histo) -> (n: u64)
    requires
        hist_values(*h).len() <= u64::MAX,
    ensures
        n as nat == hist_values(*h).len(),
{
    h.inner.len()
}

/// `a + b`, stopping at the largest representable count.
pub open spec fn sat_add_u64(a: u64, b: u64) -> u64 {
    if a + b <= u64::MAX {
        (a + b) as u64
    } else {
        u64::MAX
    }
}

/// A rate counter: the exact event count plus the number of window
/// rotations (`tick`) it has seen.
pub struct RateMeter {
    pub count: u64,
    pub ticks: u64,
}

/// Point-in-time copy of a rate counter.
pub struct MeterSnapshot {
    pub count: u64,
    pub ticks: u64,
}

impl RateMeter {
    pub open spec fn marked(self, n: u64) -> RateMeter {
        RateMeter { count: sat_add_u64(self.count, n), ticks: self.ticks }
    }

    pub open spec fn ticked(self) -> RateMeter {
        RateMeter { count: self.count, ticks: sat_add_u64(self.ticks, 1) }
    }

    /// The snapshot this meter yields.
    pub open spec fn snapshot_spec(self) -> MeterSnapshot {
        MeterSnapshot { count: self.count, ticks: self.ticks }
    }

    pub fn new() -> (m: RateMeter)
        ensures
            m.count == 0,
            m.ticks == 0,
    {
        RateMeter { count: 0, ticks: 0 }
    }

    /// Count `n` more events.
    pub fn mark(&mut self, n: u64)
        ensures
            *final(self) == old(self).marked(n),
    {
        if n <= u64::MAX - self.count {
            self.count = self.count + n;
        } else {
            self.count = u64::MAX;
        }
    }

    /// Roll the rate windows forward once.
    pub fn tick(&mut self)
        ensures
            *final(self) == old(self).ticked(),
    {
        if self.ticks < u64::MAX {
            self.ticks = self.ticks + 1;
        }
    }

    pub fn snapshot(&self) -> (s: MeterSnapshot)
        ensures
            s == self.snapshot_spec(),
    {
        MeterSnapshot { count: self.count, ticks: self.ticks }
    }
}

/// `v` clamped to the recorder ceiling `c`.
pub open spec fn clamped(v: u64, c: u64) -> u64 {
    if v > c {
        c
    } else {
        v
    }
}

/// A bounded distribution recorder: exact count, min, max and sum of
/// the (clamped) recorded values, plus the underlying histogram for
/// percentile queries.
pub struct DistRecorder {
    pub ceiling: u64,
    pub count: u64,
    pub min_value: u64,
    pub max_value: u64,
    pub sum: u128,
    pub hist: Histo,
}

/// Point-in-time copy of a recorder's exact statistics.
pub struct HistogramSnapshot {
    pub count: u64,
    pub min: u64,
    pub max: u64,
    pub sum: u128,
    pub ceiling: u64,
}

impl DistRecorder {
    pub open spec fn wf(self) -> bool {
        &&& 2 <= self.ceiling
        &&& self.max_value <= self.ceiling
        &&& (self.count == 0 ==> self.max_value == 0 && self.min_value == u64::MAX
            && self.sum == 0)
        &&& self.sum <= self.count as nat * self.ceiling as nat
        &&& hist_values(self.hist).len() == self.count
        &&& hist_ceiling(self.hist) == self.ceiling
    }

    /// The snapshot this recorder yields.
    pub open spec fn snapshot_spec(self) -> HistogramSnapshot {
        HistogramSnapshot {
            count: self.count,
            min: self.min_value,
            max: self.max_value,
            sum: self.sum,
            ceiling: self.ceiling,
        }
    }

    /// What one recording does: the value is clamped to the ceiling,
    /// joins the histogram, and the exact statistics move with it.
    pub open spec fn records(pre: DistRecorder, post: DistRecorder, v: u64) -> bool {
        let e = clamped(v, pre.ceiling);
        &&& post.ceiling == pre.ceiling
        &&& post.count == pre.count + 1
        &&& post.min_value == if e < pre.min_value {
            e
        } else {
            pre.min_value
        }
        &&& post.max_value == if e > pre.max_value {
            e
        } else {
            pre.max_value
        }
        &&& post.sum == pre.sum + e
        &&& hist_values(post.hist) == hist_values(pre.hist).insert(e)
    }

    pub fn new(ceiling: u64) -> (r: DistRecorder)
        requires
            2 <= ceiling,
        ensures
            r.wf(),
            r.ceiling == ceiling,
            r.count == 0,
    {
        DistRecorder {
            ceiling,
            count: 0,
            min_value: u64::MAX,
            max_value: 0,
            sum: 0,
            hist: new_histogram(ceiling),
        }
    }

    /// Record one value. A value above the ceiling is clamped to the
    /// ceiling — the recording never fails the caller — so afterwards
    /// the maximum is at least the value (when it was within range) or
    /// exactly the ceiling (when it was clamped).
    pub fn record(&mut self, v: u64)
        requires
            old(self).wf(),
            old(self).count < u64::MAX,
        ensures
            final(self).wf(),
            DistRecorder::records(*old(self), *final(self), v),
            v <= old(self).ceiling ==> final(self).max_value >= v,
            v > old(self).ceiling ==> final(self).max_value == old(self).ceiling,
    {
        let e = if v > self.ceiling {
            self.ceiling
        } else {
            v
        };
        proof {
            assert(self.sum + e <= self.count as nat * self.ceiling as nat + self.ceiling);
            assert((self.count as nat + 1) * self.ceiling as nat == self.count as nat
                * self.ceiling as nat + self.ceiling as nat) by (nonlinear_arith);
            assert((self.count as nat + 1) * self.ceiling as nat <= u64::MAX as nat
                * u64::MAX as nat) by (nonlinear_arith)
                requires
                    self.count as nat + 1 <= u64::MAX as nat,
                    self.ceiling <= u64::MAX,
            ;
            assert((u64::MAX as nat) * (u64::MAX as nat) < (u128::MAX as nat)) by (nonlinear_arith);
        }
        record_value(&mut self.hist, e);
        self.count = self.count + 1;
        if e < self.min_value {
            self.min_value = e;
        }
        if e > self.max_value {
            self.max_value = e;
        }
        self.sum = self.sum + e as u128;
    }

    /// The number of values the underlying histogram holds; equal to
    /// the recorder's own count.
    pub fn recorded_total(&self) -> (n: u64)
        requires
            self.wf(),
        ensures
            n == self.count,
    {
        histogram_len(&self.hist)
    }


    pub fn snapshot(&self) -> (s: HistogramSnapshot)
        ensures
            s == self.snapshot_spec(),
    {
        HistogramSnapshot {
            count: self.count,
            min: self.min_value,
            max: self.max_value,
            sum: self.sum,
            ceiling: self.ceiling,
        }
    }
}

/// Metrics of batch handling by workers.
pub struct HandlerMetrics {
    pub batches_per_second: RateMeter,
    pub bytes_per_batch: DistRecorder,
    pub processing_durations: DistRecorder,
    pub bytes_per_second: RateMeter,
}

/// Point-in-time copy of `HandlerMetrics`.
pub struct HandlerStats {
    pub batches_per_second: MeterSnapshot,
    pub bytes_per_batch: HistogramSnapshot,
    pub processing_durations: HistogramSnapshot,
    pub bytes_per_second: MeterSnapshot,
}

impl HandlerMetrics {
    pub open spec fn wf(self) -> bool {
        &&& self.bytes_per_batch.wf()
        &&& self.processing_durations.wf()
    }

    /// A freshly built group: nothing recorded anywhere, and the
    /// recorder ceilings as configured.
    pub open spec fn fresh(self) -> bool {
        &&& self.batches_per_second == (RateMeter { count: 0, ticks: 0 })
        &&& self.bytes_per_second == (RateMeter { count: 0, ticks: 0 })
        &&& self.bytes_per_batch.count == 0
        &&& self.bytes_per_batch.ceiling == 1_000_000
        &&& self.processing_durations.count == 0
        &&& self.processing_durations.ceiling == 600_000_000
    }

    /// The group after one tick: every meter's windows rotated, the
    /// distributions untouched.
    pub open spec fn ticked(self) -> HandlerMetrics {
        HandlerMetrics {
            batches_per_second: self.batches_per_second.ticked(),
            bytes_per_second: self.bytes_per_second.ticked(),
            ..self
        }
    }

    pub fn new() -> (m: HandlerMetrics)
        ensures
            m.wf(),
            m.fresh(),
    {
        HandlerMetrics {
            batches_per_second: RateMeter::new(),
            bytes_per_batch: DistRecorder::new(1_000_000),
            processing_durations: DistRecorder::new(600_000_000),
            bytes_per_second: RateMeter::new(),
        }
    }

    /// One batch of `bytes` bytes reached a worker: both rates move and
    /// the batch size joins its distribution.
    pub fn batch_received(&mut self, bytes: u64)
        requires
            old(self).wf(),
            old(self).bytes_per_batch.count < u64::MAX,
        ensures
            final(self).wf(),
            final(self).batches_per_second == old(self).batches_per_second.marked(1),
            final(self).bytes_per_second == old(self).bytes_per_second.marked(bytes),
            DistRecorder::records(old(self).bytes_per_batch, final(self).bytes_per_batch, bytes),
            final(self).processing_durations == old(self).processing_durations,
    {
        self.batches_per_second.mark(1);
        self.bytes_per_second.mark(bytes);
        self.bytes_per_batch.record(bytes);
    }

    /// A worker finished one batch after `processing_micros`.
    pub fn batch_processed(&mut self, processing_micros: u64)
        requires
            old(self).wf(),
            old(self).processing_durations.count < u64::MAX,
        ensures
            final(self).wf(),
            DistRecorder::records(
                old(self).processing_durations,
                final(self).processing_durations,
                processing_micros,
            ),
            final(self).batches_per_second == old(self).batches_per_second,
            final(self).bytes_per_second == old(self).bytes_per_second,
            final(self).bytes_per_batch == old(self).bytes_per_batch,
    {
        self.processing_durations.record(processing_micros);
    }

    pub fn tick(&mut self)
        ensures
            *final(self) == old(self).ticked(),
    {
        self.batches_per_second.tick();
        self.bytes_per_second.tick();
    }

    /// The snapshot this group yields.
    pub open spec fn stats_spec(self) -> HandlerStats {
        HandlerStats {
            batches_per_second: self.batches_per_second.snapshot_spec(),
            bytes_per_batch: self.bytes_per_batch.snapshot_spec(),
            processing_durations: self.processing_durations.snapshot_spec(),
            bytes_per_second: self.bytes_per_second.snapshot_spec(),
        }
    }

    pub fn stats(&self) -> (s: HandlerStats)
        ensures
            s == self.stats_spec(),
    {
        HandlerStats {
            batches_per_second: self.batches_per_second.snapshot(),
            bytes_per_batch: self.bytes_per_batch.snapshot(),
            processing_durations: self.processing_durations.snapshot(),
            bytes_per_second: self.bytes_per_second.snapshot(),
        }
    }
}

/// Metrics of the stream connection.
pub struct StreamMetrics {
    pub lines_per_second: RateMeter,
    pub bytes_per_line: DistRecorder,
    pub bytes_per_second: RateMeter,
    pub keep_alives_per_second: RateMeter,
    pub connection_duration: DistRecorder,
    pub no_connection_duration: DistRecorder,
    pub lines_per_connection: DistRecorder,
    pub batches_dropped_per_second: RateMeter,
}

/// Point-in-time copy of `StreamMetrics`. Connection duration and
/// no-connection duration are genuinely distinct distributions, each
/// snapshotted from its own recorder.
pub struct StreamStats {
    pub lines_per_second: MeterSnapshot,
    pub bytes_per_line: HistogramSnapshot,
    pub bytes_per_second: MeterSnapshot,
    pub keep_alives_per_second: MeterSnapshot,
    pub connection_duration: HistogramSnapshot,
    pub no_connection_duration: HistogramSnapshot,
    pub lines_per_connection: HistogramSnapshot,
    pub batches_dropped_per_second: MeterSnapshot,
}

impl StreamMetrics {
    pub open spec fn wf(self) -> bool {
        &&& self.bytes_per_line.wf()
        &&& self.connection_duration.wf()
        &&& self.no_connection_duration.wf()
        &&& self.lines_per_connection.wf()
    }

    /// A freshly built group: nothing recorded anywhere, and the
    /// recorder ceilings as configured (bytes per line, connection
    /// duration in seconds, no-connection duration in milliseconds,
    /// lines per connection).
    pub open spec fn fresh(self) -> bool {
        &&& self.lines_per_second == (RateMeter { count: 0, ticks: 0 })
        &&& self.bytes_per_second == (RateMeter { count: 0, ticks: 0 })
        &&& self.keep_alives_per_second == (RateMeter { count: 0, ticks: 0 })
        &&& self.batches_dropped_per_second == (RateMeter { count: 0, ticks: 0 })
        &&& self.bytes_per_line.count == 0
        &&& self.bytes_per_line.ceiling == 1_000_000
        &&& self.connection_duration.count == 0
        &&& self.connection_duration.ceiling == 172_800
        &&& self.no_connection_duration.count == 0
        &&& self.no_connection_duration.ceiling == 36_000_000
        &&& self.lines_per_connection.count == 0
        &&& self.lines_per_connection.ceiling == 10_000_000
    }

    /// The group after one tick: every meter's windows rotated, the
    /// distributions untouched.
    pub open spec fn ticked(self) -> StreamMetrics {
        StreamMetrics {
            lines_per_second: self.lines_per_second.ticked(),
            bytes_per_second: self.bytes_per_second.ticked(),
            keep_alives_per_second: self.keep_alives_per_second.ticked(),
            batches_dropped_per_second: self.batches_dropped_per_second.ticked(),
            ..self
        }
    }

    pub fn new() -> (m: StreamMetrics)
        ensures
            m.wf(),
            m.fresh(),
    {
        StreamMetrics {
            lines_per_second: RateMeter::new(),
            bytes_per_line: DistRecorder::new(1_000_000),
            bytes_per_second: RateMeter::new(),
            keep_alives_per_second: RateMeter::new(),
            connection_duration: DistRecorder::new(172_800),
            no_connection_duration: DistRecorder::new(36_000_000),
            lines_per_connection: DistRecorder::new(10_000_000),
            batches_dropped_per_second: RateMeter::new(),
        }
    }

    /// A batch was dropped because the dispatch queue was full.
    pub fn batch_skipped(&mut self)
        ensures
            final(self).batches_dropped_per_second == old(self).batches_dropped_per_second.marked(
                1,
            ),
            *final(self) == (StreamMetrics {
                batches_dropped_per_second: final(self).batches_dropped_per_second,
                ..*old(self)
            }),
    {
        self.batches_dropped_per_second.mark(1);
    }

    /// A connection ended after `duration_secs` during which `lines`
    /// lines were received.
    pub fn connection_ended(&mut self, duration_secs: u64, lines: u64)
        requires
            old(self).wf(),
            old(self).lines_per_connection.count < u64::MAX,
            old(self).connection_duration.count < u64::MAX,
        ensures
            final(self).wf(),
            DistRecorder::records(
                old(self).lines_per_connection,
                final(self).lines_per_connection,
                lines,
            ),
            DistRecorder::records(
                old(self).connection_duration,
                final(self).connection_duration,
                duration_secs,
            ),
            *final(self) == (StreamMetrics {
                lines_per_connection: final(self).lines_per_connection,
                connection_duration: final(self).connection_duration,
                ..*old(self)
            }),
    {
        self.lines_per_connection.record(lines);
        self.connection_duration.record(duration_secs);
    }

    /// Streaming resumed after `no_connection_millis` without a
    /// connection; the availability gap joins its distribution.
    pub fn connected(&mut self, no_connection_millis: u64)
        requires
            old(self).wf(),
            old(self).no_connection_duration.count < u64::MAX,
        ensures
            final(self).wf(),
            DistRecorder::records(
                old(self).no_connection_duration,
                final(self).no_connection_duration,
                no_connection_millis,
            ),
            *final(self) == (StreamMetrics {
                no_connection_duration: final(self).no_connection_duration,
                ..*old(self)
            }),
    {
        self.no_connection_duration.record(no_connection_millis);
    }

    /// A keep-alive line arrived.
    pub fn keep_alive_received(&mut self)
        ensures
            final(self).keep_alives_per_second == old(self).keep_alives_per_second.marked(1),
            *final(self) == (StreamMetrics {
                keep_alives_per_second: final(self).keep_alives_per_second,
                ..*old(self)
            }),
    {
        self.keep_alives_per_second.mark(1);
    }

    /// A line of `bytes` bytes arrived; its size is recorded before any
    /// decoding, so pathological payloads stay observable.
    pub fn line_received(&mut self, bytes: u64)
        requires
            old(self).wf(),
            old(self).bytes_per_line.count < u64::MAX,
        ensures
            final(self).wf(),
            final(self).lines_per_second == old(self).lines_per_second.marked(1),
            final(self).bytes_per_second == old(self).bytes_per_second.marked(bytes),
            DistRecorder::records(old(self).bytes_per_line, final(self).bytes_per_line, bytes),
            *final(self) == (StreamMetrics {
                lines_per_second: final(self).lines_per_second,
                bytes_per_second: final(self).bytes_per_second,
                bytes_per_line: final(self).bytes_per_line,
                ..*old(self)
            }),
    {
        self.lines_per_second.mark(1);
        self.bytes_per_second.mark(bytes);
        self.bytes_per_line.record(bytes);
    }

    pub fn tick(&mut self)
        ensures
            *final(self) == old(self).ticked(),
    {
        self.lines_per_second.tick();
        self.bytes_per_second.tick();
        self.keep_alives_per_second.tick();
        self.batches_dropped_per_second.tick();
    }

    /// The snapshot this group yields; the two duration distributions
    /// each come from their own recorder.
    pub open spec fn stats_spec(self) -> StreamStats {
        StreamStats {
            lines_per_second: self.lines_per_second.snapshot_spec(),
            bytes_per_line: self.bytes_per_line.snapshot_spec(),
            bytes_per_second: self.bytes_per_second.snapshot_spec(),
            keep_alives_per_second: self.keep_alives_per_second.snapshot_spec(),
            connection_duration: self.connection_duration.snapshot_spec(),
            no_connection_duration: self.no_connection_duration.snapshot_spec(),
            lines_per_connection: self.lines_per_connection.snapshot_spec(),
            batches_dropped_per_second: self.batches_dropped_per_second.snapshot_spec(),
        }
    }

    pub fn stats(&self) -> (s: StreamStats)
        ensures
            s == self.stats_spec(),
    {
        StreamStats {
            lines_per_second: self.lines_per_second.snapshot(),
            bytes_per_line: self.bytes_per_line.snapshot(),
            bytes_per_second: self.bytes_per_second.snapshot(),
            keep_alives_per_second: self.keep_alives_per_second.snapshot(),
            connection_duration: self.connection_duration.snapshot(),
            no_connection_duration: self.no_connection_duration.snapshot(),
            lines_per_connection: self.lines_per_connection.snapshot(),
            batches_dropped_per_second: self.batches_dropped_per_second.snapshot(),
        }
    }
}

/// Metrics of checkpoint committing.
pub struct CheckpointingMetrics {
    pub checkpoints_per_second: RateMeter,
    pub checkpointing_durations: DistRecorder,
    pub checkpointing_errors_per_second: RateMeter,
    pub checkpointing_failures_per_second: RateMeter,
    pub checkpointing_failures_durations: DistRecorder,
}

/// Point-in-time copy of `CheckpointingMetrics`.
pub struct CheckpointingStats {
    pub checkpoints_per_second: MeterSnapshot,
    pub checkpointing_durations: HistogramSnapshot,
    pub checkpointing_errors_per_second: MeterSnapshot,
    pub checkpointing_failures_per_second: MeterSnapshot,
    pub checkpointing_failures_durations: HistogramSnapshot,
}

impl CheckpointingMetrics {
    pub open spec fn wf(self) -> bool {
        &&& self.checkpointing_durations.wf()
        &&& self.checkpointing_failures_durations.wf()
    }

    /// A freshly built group: nothing recorded anywhere, and both
    /// duration recorders with their configured ceiling.
    pub open spec fn fresh(self) -> bool {
        &&& self.checkpoints_per_second == (RateMeter { count: 0, ticks: 0 })
        &&& self.checkpointing_errors_per_second == (RateMeter { count: 0, ticks: 0 })
        &&& self.checkpointing_failures_per_second == (RateMeter { count: 0, ticks: 0 })
        &&& self.checkpointing_durations.count == 0
        &&& self.checkpointing_durations.ceiling == 3_660_000
        &&& self.checkpointing_failures_durations.count == 0
        &&& self.checkpointing_failures_durations.ceiling == 3_660_000
    }

    /// The group after one tick: every meter's windows rotated, the
    /// distributions untouched.
    pub open spec fn ticked(self) -> CheckpointingMetrics {
        CheckpointingMetrics {
            checkpoints_per_second: self.checkpoints_per_second.ticked(),
            checkpointing_errors_per_second: self.checkpointing_errors_per_second.ticked(),
            checkpointing_failures_per_second: self.checkpointing_failures_per_second.ticked(),
            ..self
        }
    }

    pub fn new() -> (m: CheckpointingMetrics)
        ensures
            m.wf(),
            m.fresh(),
    {
        CheckpointingMetrics {
            checkpoints_per_second: RateMeter::new(),
            checkpointing_durations: DistRecorder::new(3_660_000),
            checkpointing_errors_per_second: RateMeter::new(),
            checkpointing_failures_per_second: RateMeter::new(),
            checkpointing_failures_durations: DistRecorder::new(3_660_000),
        }
    }

    /// A commit succeeded after `millis`.
    pub fn checkpointed(&mut self, millis: u64)
        requires
            old(self).wf(),
            old(self).checkpointing_durations.count < u64::MAX,
        ensures
            final(self).wf(),
            final(self).checkpoints_per_second == old(self).checkpoints_per_second.marked(1),
            DistRecorder::records(
                old(self).checkpointing_durations,
                final(self).checkpointing_durations,
                millis,
            ),
            *final(self) == (CheckpointingMetrics {
                checkpoints_per_second: final(self).checkpoints_per_second,
                checkpointing_durations: final(self).checkpointing_durations,
                ..*old(self)
            }),
    {
        self.checkpoints_per_second.mark(1);
        self.checkpointing_durations.record(millis);
    }

    /// A commit attempt failed after `millis`.
    pub fn checkpointing_failed(&mut self, millis: u64)
        requires
            old(self).wf(),
            old(self).checkpointing_failures_durations.count < u64::MAX,
        ensures
            final(self).wf(),
            final(self).checkpointing_failures_per_second == old(self).checkpointing_failures_per_second.marked(1),
            DistRecorder::records(
                old(self).checkpointing_failures_durations,
                final(self).checkpointing_failures_durations,
                millis,
            ),
            *final(self) == (CheckpointingMetrics {
                checkpointing_failures_per_second: final(self).checkpointing_failures_per_second,
                checkpointing_failures_durations: final(self).checkpointing_failures_durations,
                ..*old(self)
            }),
    {
        self.checkpointing_failures_per_second.mark(1);
        self.checkpointing_failures_durations.record(millis);
    }

    /// A cursor was given up on (stale or unprocessable).
    pub fn checkpointing_error(&mut self)
        ensures
            final(self).checkpointing_errors_per_second == old(self).checkpointing_errors_per_second.marked(1),
            *final(self) == (CheckpointingMetrics {
                checkpointing_errors_per_second: final(self).checkpointing_errors_per_second,
                ..*old(self)
            }),
    {
        self.checkpointing_errors_per_second.mark(1);
    }

    pub fn tick(&mut self)
        ensures
            *final(self) == old(self).ticked(),
    {
        self.checkpoints_per_second.tick();
        self.checkpointing_errors_per_second.tick();
        self.checkpointing_failures_per_second.tick();
    }

    /// The snapshot this group yields.
    pub open spec fn stats_spec(self) -> CheckpointingStats {
        CheckpointingStats {
            checkpoints_per_second: self.checkpoints_per_second.snapshot_spec(),
            checkpointing_durations: self.checkpointing_durations.snapshot_spec(),
            checkpointing_errors_per_second: self.checkpointing_errors_per_second.snapshot_spec(),
            checkpointing_failures_per_second: self.checkpointing_failures_per_second.snapshot_spec(),
            checkpointing_failures_durations: self.checkpointing_failures_durations.snapshot_spec(),
        }
    }

    pub fn stats(&self) -> (s: CheckpointingStats)
        ensures
            s == self.stats_spec(),
    {
        CheckpointingStats {
            checkpoints_per_second: self.checkpoints_per_second.snapshot(),
            checkpointing_durations: self.checkpointing_durations.snapshot(),
            checkpointing_errors_per_second: self.checkpointing_errors_per_second.snapshot(),
            checkpointing_failures_per_second: self.checkpointing_failures_per_second.snapshot(),
            checkpointing_failures_durations: self.checkpointing_failures_durations.snapshot(),
        }
    }
}

/// The full metrics tree, one group per component.
pub struct WorkerMetrics {
    pub handler: HandlerMetrics,
    pub stream: StreamMetrics,
    pub checkpointing: CheckpointingMetrics,
}

/// Point-in-time copy of the full metrics tree.
pub struct WorkerStats {
    pub handler: HandlerStats,
    pub stream: StreamStats,
    pub checkpointing: CheckpointingStats,
}

impl WorkerMetrics {
    pub open spec fn wf(self) -> bool {
        &&& self.handler.wf()
        &&& self.stream.wf()
        &&& self.checkpointing.wf()
    }

    /// A freshly built tree: every meter and every recorder of all
    /// three groups empty, all ceilings as configured.
    pub open spec fn fresh(self) -> bool {
        &&& self.handler.fresh()
        &&& self.stream.fresh()
        &&& self.checkpointing.fresh()
    }

    /// The tree after one tick: every meter of every group rotated,
    /// no distribution touched.
    pub open spec fn ticked(self) -> WorkerMetrics {
        WorkerMetrics {
            handler: self.handler.ticked(),
            stream: self.stream.ticked(),
            checkpointing: self.checkpointing.ticked(),
        }
    }

    pub fn new() -> (m: WorkerMetrics)
        ensures
            m.wf(),
            m.fresh(),
    {
        WorkerMetrics {
            handler: HandlerMetrics::new(),
            stream: StreamMetrics::new(),
            checkpointing: CheckpointingMetrics::new(),
        }
    }

    pub fn tick(&mut self)
        ensures
            *final(self) == old(self).ticked(),
    {
        self.handler.tick();
        self.stream.tick();
        self.checkpointing.tick();
    }

    /// The snapshot of the whole tree.
    pub open spec fn stats_spec(self) -> WorkerStats {
        WorkerStats {
            handler: self.handler.stats_spec(),
            stream: self.stream.stats_spec(),
            checkpointing: self.checkpointing.stats_spec(),
        }
    }

    pub fn stats(&self) -> (s: WorkerStats)
        ensures
            s == self.stats_spec(),
    {
        WorkerStats {
            handler: self.handler.stats(),
            stream: self.stream.stats(),
            checkpointing: self.checkpointing.stats(),
        }
    }
}

/// Milliseconds in a duration given as whole seconds plus the
/// sub-second nanoseconds.
pub fn duration_to_millis(secs: u64, subsec_nanos: u32) -> (ms: u64)
    requires
        secs <= u64::MAX / 1000 - 5,
    ensures
        ms == secs * 1000 + subsec_nanos as u64 / 1_000_000,
{
    secs * 1000 + (subsec_nanos / 1_000_000) as u64
}

/// Microseconds in a duration given as whole seconds plus the
/// sub-second nanoseconds.
pub fn duration_to_micros(secs: u64, subsec_nanos: u32) -> (us: u64)
    requires
        secs <= u64::MAX / 1_000_000 - 5,
    ensures
        us == secs * 1_000_000 + subsec_nanos as u64 / 1000,
{
    secs * 1_000_000 + (subsec_nanos / 1000) as u64
}

} // verus!
