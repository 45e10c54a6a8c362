//! The consumption engine: one place that owns the connection state,
//! the reconnect backoff, the dispatch queue, the checkpoint committer
//! and the metrics tree, and that decides — as a pure step machine —
//! what happens for every line received, every handled batch and every
//! commit outcome. The surrounding application performs the actual
//! transport calls, measures durations, and feeds the results back in
//! as plain values.

use vstd::prelude::*;
use crate::backoff::Backoff;
use crate::committer::{last_committed, CheckpointCommitter, CommitFailureAction};
use crate::connection::{transition, transition_spec, ConnectionEvent, ConnectionState};
use crate::cursor::{Cursor, SubscriptionId};
use crate::dispatch::{Dispatcher, SubmitOutcome};
use crate::errors::{ClientError, ErrorKind};
use crate::metrics::{sat_add_u64, CheckpointingMetrics, DistRecorder, StreamMetrics, WorkerMetrics, WorkerStats};
use crate::reader::{decode_line, is_blank, parse_frame, DecodedLine};

verus! {

/// What the engine did with one received line.
#[derive(Clone, Copy, Debug, PartialEq, Eq, Structural)]
pub enum LineOutcome {
    /// The line was blank: a keep-alive, counted and nothing more.
    KeptAlive,
    /// The decoded batch was queued for a worker.
    Dispatched,
    /// The queue was at capacity: the batch was dropped and counted;
    /// the broker will redeliver from the last committed cursor.
    Dropped,
    /// The line did not decode: the connection re-enters reconnection.
    DecodeFailed,
}

/// The stream-consumption, dispatch and checkpointing engine.
pub struct Engine {
    pub subscription: SubscriptionId,
    pub state: ConnectionState,
    pub backoff: Backoff,
    pub dispatcher: Dispatcher,
    pub committer: CheckpointCommitter,
    pub metrics: WorkerMetrics,
    /// Lines received over the current connection.
    pub lines_this_connection: u64,
    /// The classified error that closed the engine, when one did.
    pub last_error: Option<ClientError>,
}

impl Engine {
    pub open spec fn wf(self) -> bool {
        &&& self.backoff.wf()
        &&& self.dispatcher.wf()
        &&& self.metrics.wf()
    }

    pub fn new(
        subscription: SubscriptionId,
        queue_capacity: usize,
        commit_retry_limit: u64,
        initial_backoff_ms: u64,
        max_backoff_ms: u64,
    ) -> (e: Engine)
        requires
            1 <= queue_capacity,
            1 <= initial_backoff_ms <= max_backoff_ms,
        ensures
            e.wf(),
            e.state == ConnectionState::Disconnected,
            e.dispatcher.pending().len() == 0,
            e.dispatcher.spec_capacity() == queue_capacity,
            e.dispatcher.spec_dropped() == 0,
            e.committer.committed().len() == 0,
            e.committer.spec_retry_limit() == commit_retry_limit,
            e.backoff.current_ms == initial_backoff_ms,
            e.lines_this_connection == 0,
            e.last_error is None,
            e.subscription == subscription,
            e.metrics.fresh(),
            e.backoff.initial_ms == initial_backoff_ms,
            e.backoff.ceiling_ms == max_backoff_ms,
    {
        Engine {
            subscription,
            state: ConnectionState::Disconnected,
            backoff: Backoff::new(initial_backoff_ms, max_backoff_ms),
            dispatcher: Dispatcher::new(queue_capacity),
            committer: CheckpointCommitter::new(commit_retry_limit),
            metrics: WorkerMetrics::new(),
            lines_this_connection: 0,
            last_error: None,
        }
    }

    /// Ask for the stream to be opened.
    pub fn open_requested(&mut self)
        ensures
            final(self).state == transition_spec(old(self).state, ConnectionEvent::OpenRequested),
            *final(self) == (Engine { state: final(self).state, ..*old(self) }),
    {
        self.state = transition(self.state, ConnectionEvent::OpenRequested);
    }

    /// The transport delivered an open stream after `no_connection_millis`
    /// without one: streaming begins, the availability gap is recorded,
    /// and the per-connection line count starts over.
    pub fn connected(&mut self, no_connection_millis: u64)
        requires
            old(self).wf(),
            old(self).metrics.stream.no_connection_duration.count < u64::MAX,
        ensures
            final(self).wf(),
            final(self).state == transition_spec(old(self).state, ConnectionEvent::TransportSuccess),
            final(self).lines_this_connection == 0,
            DistRecorder::records(
                old(self).metrics.stream.no_connection_duration,
                final(self).metrics.stream.no_connection_duration,
                no_connection_millis,
            ),
            final(self).metrics == (WorkerMetrics {
                stream: final(self).metrics.stream,
                ..old(self).metrics
            }),
            final(self).metrics.stream == (StreamMetrics {
                no_connection_duration: final(self).metrics.stream.no_connection_duration,
                ..old(self).metrics.stream
            }),
            *final(self) == (Engine {
                state: final(self).state,
                metrics: final(self).metrics,
                lines_this_connection: 0,
                ..*old(self)
            }),
    {
        self.state = transition(self.state, ConnectionEvent::TransportSuccess);
        self.metrics.stream.connected(no_connection_millis);
        self.lines_this_connection = 0;
    }

    /// One line arrived while streaming. Its size is recorded before
    /// decoding; a blank line only counts as a keep-alive; a decoded
    /// batch is queued unless the queue is full, in which case it is
    /// dropped and counted; an undecodable line sends the connection
    /// into reconnection.
    pub fn on_line(&mut self, line: &Vec<u8>) -> (out: LineOutcome)
        requires
            old(self).wf(),
            old(self).state == ConnectionState::Streaming,
            old(self).metrics.stream.bytes_per_line.count < u64::MAX,
            old(self).dispatcher.spec_dropped() < u64::MAX,
        ensures
            final(self).wf(),
            *final(self) == (Engine {
                state: final(self).state,
                dispatcher: final(self).dispatcher,
                metrics: final(self).metrics,
                lines_this_connection: final(self).lines_this_connection,
                ..*old(self)
            }),
            final(self).lines_this_connection == sat_add_u64(old(self).lines_this_connection, 1),
            final(self).metrics == (WorkerMetrics {
                stream: final(self).metrics.stream,
                ..old(self).metrics
            }),
            final(self).metrics.stream == (StreamMetrics {
                lines_per_second: final(self).metrics.stream.lines_per_second,
                bytes_per_second: final(self).metrics.stream.bytes_per_second,
                bytes_per_line: final(self).metrics.stream.bytes_per_line,
                keep_alives_per_second: final(self).metrics.stream.keep_alives_per_second,
                batches_dropped_per_second: final(self).metrics.stream.batches_dropped_per_second,
                ..old(self).metrics.stream
            }),
            final(self).metrics.stream.lines_per_second == old(self).metrics.stream.lines_per_second.marked(1),
            final(self).metrics.stream.bytes_per_second == old(self).metrics.stream.bytes_per_second.marked(line@.len() as u64),
            DistRecorder::records(
                old(self).metrics.stream.bytes_per_line,
                final(self).metrics.stream.bytes_per_line,
                line@.len() as u64,
            ),
            !is_blank(line@) ==> final(self).metrics.stream.keep_alives_per_second == old(self).metrics.stream.keep_alives_per_second,
            is_blank(line@) ==> {
                &&& out == LineOutcome::KeptAlive
                &&& final(self).state == ConnectionState::Streaming
                &&& final(self).metrics.stream.keep_alives_per_second == old(self).metrics.stream.keep_alives_per_second.marked(1)
                &&& final(self).metrics.stream.batches_dropped_per_second == old(self).metrics.stream.batches_dropped_per_second
                &&& final(self).dispatcher == old(self).dispatcher
            },
            !is_blank(line@) && parse_frame(line@) is Some && old(self).dispatcher.pending().len()
                < old(self).dispatcher.spec_capacity() ==> {
                &&& out == LineOutcome::Dispatched
                &&& final(self).state == ConnectionState::Streaming
                &&& final(self).dispatcher.pending().len() == old(self).dispatcher.pending().len()
                    + 1
                &&& final(self).dispatcher.pending().last().cursor.partition@ == parse_frame(
                    line@,
                )->0.partition
                &&& final(self).dispatcher.pending().last().cursor.offset@ == parse_frame(
                    line@,
                )->0.offset
                &&& final(self).dispatcher.pending().last().events@ == parse_frame(line@)->0.events
                &&& final(self).dispatcher.spec_dropped() == old(self).dispatcher.spec_dropped()
                &&& final(self).metrics.stream.batches_dropped_per_second == old(self).metrics.stream.batches_dropped_per_second
            },
            !is_blank(line@) && parse_frame(line@) is Some && old(self).dispatcher.pending().len()
                >= old(self).dispatcher.spec_capacity() ==> {
                &&& out == LineOutcome::Dropped
                &&& final(self).state == ConnectionState::Streaming
                &&& final(self).dispatcher.pending() == old(self).dispatcher.pending()
                &&& final(self).dispatcher.spec_dropped() == old(self).dispatcher.spec_dropped()
                    + 1
                &&& final(self).metrics.stream.batches_dropped_per_second == old(self).metrics.stream.batches_dropped_per_second.marked(1)
            },
            !is_blank(line@) && parse_frame(line@) is None ==> {
                &&& out == LineOutcome::DecodeFailed
                &&& final(self).state == ConnectionState::Reconnecting
                &&& final(self).metrics.stream.batches_dropped_per_second == old(self).metrics.stream.batches_dropped_per_second
                &&& final(self).dispatcher == old(self).dispatcher
            },
    {
        self.metrics.stream.line_received(line.len() as u64);
        if self.lines_this_connection < u64::MAX {
            self.lines_this_connection = self.lines_this_connection + 1;
        }
        match decode_line(line) {
            Ok(DecodedLine::KeepAlive) => {
                self.metrics.stream.keep_alive_received();
                LineOutcome::KeptAlive
            },
            Ok(DecodedLine::Frame(b)) => {
                match self.dispatcher.submit(b) {
                    SubmitOutcome::Accepted => LineOutcome::Dispatched,
                    SubmitOutcome::Dropped => {
                        self.metrics.stream.batch_skipped();
                        LineOutcome::Dropped
                    },
                }
            },
            Err(e) => {
                self.state = transition(self.state, ConnectionEvent::Failure(e.kind));
                LineOutcome::DecodeFailed
            },
        }
    }

    /// One worker takes the oldest queued batch and reports whether the
    /// external handler succeeded, and how long handling took. On
    /// success the batch's cursor is offered to the committer: the
    /// returned cursor, when there is one, must be committed to the
    /// broker. A cursor at the partition's last committed offset, a
    /// handler failure (the batch will be redelivered) and an empty
    /// queue all yield nothing to commit.
    pub fn worker_step(&mut self, handler_ok: bool, processing_micros: u64) -> (c: Option<Cursor>)
        requires
            old(self).wf(),
            old(self).metrics.handler.bytes_per_batch.count < u64::MAX,
            old(self).metrics.handler.processing_durations.count < u64::MAX,
        ensures
            final(self).wf(),
            *final(self) == (Engine {
                dispatcher: final(self).dispatcher,
                metrics: final(self).metrics,
                ..*old(self)
            }),
            final(self).metrics == (WorkerMetrics {
                handler: final(self).metrics.handler,
                ..old(self).metrics
            }),
            old(self).dispatcher.pending().len() == 0 ==> c is None && final(self).dispatcher.pending() == old(self).dispatcher.pending() && final(self).metrics == old(self).metrics,
            final(self).dispatcher.spec_dropped() == old(self).dispatcher.spec_dropped(),
            final(self).dispatcher.spec_capacity() == old(self).dispatcher.spec_capacity(),
            old(self).dispatcher.pending().len() > 0 ==> {
                &&& final(self).dispatcher.pending() == old(self).dispatcher.pending().subrange(
                    1,
                    old(self).dispatcher.pending().len() as int,
                )
                &&& final(self).metrics.handler.batches_per_second == old(self).metrics.handler.batches_per_second.marked(1)
                &&& final(self).metrics.handler.bytes_per_second == old(self).metrics.handler.bytes_per_second.marked(
                    old(self).dispatcher.pending()[0].events@.len() as u64,
                )
                &&& DistRecorder::records(
                    old(self).metrics.handler.bytes_per_batch,
                    final(self).metrics.handler.bytes_per_batch,
                    old(self).dispatcher.pending()[0].events@.len() as u64,
                )
                &&& DistRecorder::records(
                    old(self).metrics.handler.processing_durations,
                    final(self).metrics.handler.processing_durations,
                    processing_micros,
                )
                &&& (c is Some <==> handler_ok && last_committed(
                    old(self).committer.committed(),
                    old(self).dispatcher.pending()[0].cursor.partition@,
                ) != Some(old(self).dispatcher.pending()[0].cursor.offset@))
                &&& c is Some ==> c->0.partition@ == old(self).dispatcher.pending()[0].cursor.partition@ && c->0.offset@ == old(self).dispatcher.pending()[0].cursor.offset@
            },
    {
        match self.dispatcher.take_next() {
            None => None,
            Some(batch) => {
                self.metrics.handler.batch_received(batch.events.len() as u64);
                self.metrics.handler.batch_processed(processing_micros);
                if handler_ok {
                    if self.committer.should_send(&batch.cursor) {
                        Some(batch.cursor.duplicate())
                    } else {
                        None
                    }
                } else {
                    None
                }
            },
        }
    }

    /// The broker accepted a commit: the cursor becomes its partition's
    /// last committed offset and the attempt latency is recorded.
    pub fn commit_succeeded(&mut self, cursor: &Cursor, millis: u64)
        requires
            old(self).wf(),
            old(self).metrics.checkpointing.checkpointing_durations.count < u64::MAX,
        ensures
            final(self).wf(),
            last_committed(final(self).committer.committed(), cursor.partition@) == Some(
                cursor.offset@,
            ),
            forall|q: Seq<u8>|
                q != cursor.partition@ ==> last_committed(final(self).committer.committed(), q)
                    == last_committed(old(self).committer.committed(), q),
            final(self).metrics.checkpointing.checkpoints_per_second == old(self).metrics.checkpointing.checkpoints_per_second.marked(1),
            DistRecorder::records(
                old(self).metrics.checkpointing.checkpointing_durations,
                final(self).metrics.checkpointing.checkpointing_durations,
                millis,
            ),
            final(self).metrics == (WorkerMetrics {
                checkpointing: final(self).metrics.checkpointing,
                ..old(self).metrics
            }),
            final(self).metrics.checkpointing == (CheckpointingMetrics {
                checkpoints_per_second: final(self).metrics.checkpointing.checkpoints_per_second,
                checkpointing_durations: final(self).metrics.checkpointing.checkpointing_durations,
                ..old(self).metrics.checkpointing
            }),
            *final(self) == (Engine {
                committer: final(self).committer,
                metrics: final(self).metrics,
                ..*old(self)
            }),
    {
        self.committer.record_success(cursor);
        self.metrics.checkpointing.checkpointed(millis);
    }

    /// A commit attempt failed with a classified kind after `attempts`
    /// tries. Transient kinds within the retry bound ask for a retry;
    /// a stale or unprocessable cursor is given up on — the error
    /// counter moves and streaming goes on; everything else closes the
    /// engine and surfaces the error.
    pub fn commit_failed(
        &mut self,
        kind: ErrorKind,
        message: String,
        attempts: u64,
        millis: u64,
    ) -> (a: CommitFailureAction)
        requires
            old(self).wf(),
            old(self).metrics.checkpointing.checkpointing_failures_durations.count < u64::MAX,
        ensures
            final(self).wf(),
            a == old(self).committer.failure_action_spec(kind, attempts),
            final(self).metrics.checkpointing.checkpointing_failures_per_second == old(self).metrics.checkpointing.checkpointing_failures_per_second.marked(1),
            DistRecorder::records(
                old(self).metrics.checkpointing.checkpointing_failures_durations,
                final(self).metrics.checkpointing.checkpointing_failures_durations,
                millis,
            ),
            final(self).metrics == (WorkerMetrics {
                checkpointing: final(self).metrics.checkpointing,
                ..old(self).metrics
            }),
            final(self).metrics.checkpointing == (CheckpointingMetrics {
                checkpointing_failures_per_second: final(self).metrics.checkpointing.checkpointing_failures_per_second,
                checkpointing_failures_durations: final(self).metrics.checkpointing.checkpointing_failures_durations,
                checkpointing_errors_per_second: final(self).metrics.checkpointing.checkpointing_errors_per_second,
                ..old(self).metrics.checkpointing
            }),
            *final(self) == (Engine {
                state: final(self).state,
                last_error: final(self).last_error,
                metrics: final(self).metrics,
                ..*old(self)
            }),
            a == CommitFailureAction::GiveUp ==> {
                &&& final(self).state == old(self).state
                &&& final(self).metrics.checkpointing.checkpointing_errors_per_second == old(self).metrics.checkpointing.checkpointing_errors_per_second.marked(1)
                &&& final(self).last_error == old(self).last_error
            },
            a == CommitFailureAction::Retry ==> {
                &&& final(self).state == old(self).state
                &&& final(self).last_error == old(self).last_error
                &&& final(self).metrics.checkpointing.checkpointing_errors_per_second == old(self).metrics.checkpointing.checkpointing_errors_per_second
            },
            a == CommitFailureAction::Fatal ==> {
                &&& final(self).state == ConnectionState::Closed
                &&& final(self).last_error is Some
                &&& final(self).last_error->0.kind == kind
                &&& final(self).metrics.checkpointing.checkpointing_errors_per_second == old(self).metrics.checkpointing.checkpointing_errors_per_second
            },
    {
        self.metrics.checkpointing.checkpointing_failed(millis);
        let a = self.committer.on_failure(kind, attempts);
        match a {
            CommitFailureAction::Retry => {},
            CommitFailureAction::GiveUp => {
                self.metrics.checkpointing.checkpointing_error();
            },
            CommitFailureAction::Fatal => {
                self.state = ConnectionState::Closed;
                self.last_error = Some(ClientError::new(kind, message));
            },
        }
        a
    }

    /// The stream failed with a classified kind. Leaving `Streaming`
    /// records the connection's line count and duration; a fatal kind
    /// closes the engine and surfaces the error, any other kind
    /// re-enters reconnection.
    pub fn stream_failed(&mut self, kind: ErrorKind, message: String, connection_secs: u64)
        requires
            old(self).wf(),
            old(self).metrics.stream.lines_per_connection.count < u64::MAX,
            old(self).metrics.stream.connection_duration.count < u64::MAX,
        ensures
            final(self).wf(),
            final(self).state == transition_spec(old(self).state, ConnectionEvent::Failure(kind)),
            final(self).state == ConnectionState::Closed && old(self).state
                != ConnectionState::Closed ==> final(self).last_error is Some && final(self).last_error->0.kind == kind,
            final(self).state != ConnectionState::Closed ==> final(self).last_error == old(self).last_error,
            old(self).state == ConnectionState::Streaming ==> {
                &&& DistRecorder::records(
                    old(self).metrics.stream.lines_per_connection,
                    final(self).metrics.stream.lines_per_connection,
                    old(self).lines_this_connection,
                )
                &&& DistRecorder::records(
                    old(self).metrics.stream.connection_duration,
                    final(self).metrics.stream.connection_duration,
                    connection_secs,
                )
                &&& final(self).metrics.stream == (StreamMetrics {
                    lines_per_connection: final(self).metrics.stream.lines_per_connection,
                    connection_duration: final(self).metrics.stream.connection_duration,
                    ..old(self).metrics.stream
                })
            },
            old(self).state != ConnectionState::Streaming ==> final(self).metrics == old(self).metrics,
            final(self).metrics == (WorkerMetrics {
                stream: final(self).metrics.stream,
                ..old(self).metrics
            }),
            *final(self) == (Engine {
                state: final(self).state,
                last_error: final(self).last_error,
                metrics: final(self).metrics,
                ..*old(self)
            }),
    {
        if matches!(self.state, ConnectionState::Streaming) {
            let lines = self.lines_this_connection;
            self.metrics.stream.connection_ended(connection_secs, lines);
        }
        let was_closed = matches!(self.state, ConnectionState::Closed);
        self.state = transition(self.state, ConnectionEvent::Failure(kind));
        if matches!(self.state, ConnectionState::Closed) && !was_closed {
            self.last_error = Some(ClientError::new(kind, message));
        }
    }

    /// The next reconnect delay of this failure episode; delays never
    /// decrease within one episode.
    pub fn next_reconnect_delay(&mut self) -> (d: u64)
        requires
            old(self).wf(),
        ensures
            final(self).wf(),
            d == old(self).backoff.current_ms,
            final(self).backoff == old(self).backoff.stepped(),
            *final(self) == (Engine { backoff: final(self).backoff, ..*old(self) }),
    {
        self.backoff.next_delay()
    }

    /// The backoff delay has elapsed: a reconnecting engine tries to
    /// connect again.
    pub fn backoff_elapsed(&mut self)
        ensures
            final(self).state == transition_spec(old(self).state, ConnectionEvent::BackoffElapsed),
            *final(self) == (Engine { state: final(self).state, ..*old(self) }),
    {
        self.state = transition(self.state, ConnectionEvent::BackoffElapsed);
    }

    /// Streaming has been healthy for a sustained period: the next
    /// failure episode starts over at the initial delay.
    pub fn sustained_streaming(&mut self)
        requires
            old(self).wf(),
        ensures
            final(self).wf(),
            final(self).backoff.current_ms == old(self).backoff.initial_ms,
            *final(self) == (Engine { backoff: final(self).backoff, ..*old(self) }),
    {
        self.backoff.reset();
    }

    /// Shut the engine down: the connection closes for good.
    pub fn close(&mut self)
        ensures
            final(self).state == ConnectionState::Closed,
            *final(self) == (Engine { state: final(self).state, ..*old(self) }),
    {
        self.state = transition(self.state, ConnectionEvent::CloseRequested);
    }

    /// Roll every rate window forward; invoked on a fixed external
    /// schedule.
    pub fn tick(&mut self)
        ensures
            final(self).metrics == old(self).metrics.ticked(),
            *final(self) == (Engine { metrics: final(self).metrics, ..*old(self) }),
    {
        self.metrics.tick();
    }

    /// A point-in-time snapshot of the whole metrics tree; pure, the
    /// engine is untouched.
    pub fn stats(&self) -> (s: WorkerStats)
        ensures
            s == self.metrics.stats_spec(),
    {
        self.metrics.stats()
    }
}

} // verus!
