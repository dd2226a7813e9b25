//! The processor capability: the pluggable strategy between an emitting
//! logger and an exporter. Two strategies are built in: *Simple* exports
//! every record inline as a singleton batch; *Batch* buffers records in a
//! bounded queue and hands them to the exporter as one batch when flushed
//! or shut down.
//!
//! Each operation is captured by a step relation between the processor's
//! state before and after the call; the provider chain's contracts are
//! stated over these relations, one per processor in registration order.

use vstd::prelude::*;

use crate::error::LogError;
use crate::export::{batch_view, LogData, LogDataView, LogExporter};

verus! {

/// Capacity of a batch processor's queue; a record emitted while the queue
/// is full is dropped (drop-newest policy).
pub const MAX_QUEUE_SIZE: usize = 2048;

/// The flush or shutdown result owed for a stored emission failure.
pub open spec fn flush_result_of(pending: Option<LogError>) -> Result<(), LogError> {
    match pending {
        None => Ok(()),
        Some(e) => Err(e),
    }
}

/// Exports each record inline, one singleton batch per emission. Emission
/// failures are not surfaced to the emitting caller: the first one is kept
/// and returned by the next `force_flush` or `shutdown`.
pub struct SimpleLogProcessor<E: LogExporter> {
    pub exporter: E,
    /// First export failure since the last flush, if any.
    pub pending_error: Option<LogError>,
    /// Whether `shutdown` has run; a stopped processor drops every record.
    pub stopped: bool,
}

/// Buffers records and hands them to the exporter as one batch at flush or
/// shutdown time. The queue is bounded by [`MAX_QUEUE_SIZE`].
pub struct BatchLogProcessor<E: LogExporter> {
    pub exporter: E,
    /// Records accepted and not yet handed to the exporter, oldest first.
    pub queue: Vec<LogData>,
    /// Whether `shutdown` has run; a stopped processor drops every record.
    pub stopped: bool,
}

/// How one `emit` call changes a simple processor.
pub open spec fn simple_emit_step<E: LogExporter>(
    pre: SimpleLogProcessor<E>,
    post: SimpleLogProcessor<E>,
    data: LogDataView,
) -> bool {
    if pre.stopped {
        post == pre
    } else {
        &&& post.stopped == false
        &&& post.exporter.exported() == pre.exporter.exported().push(seq![data])
        &&& if pre.exporter.export_succeeds(seq![data]) {
            post.pending_error == pre.pending_error
        } else {
            match pre.pending_error {
                Some(e) => post.pending_error == Some(e),
                None => post.pending_error is Some,
            }
        }
    }
}

/// How one `force_flush` call changes a simple processor: no export work is
/// left to do, so it only surrenders the stored emission failure, if any.
pub open spec fn simple_flush_step<E: LogExporter>(
    pre: SimpleLogProcessor<E>,
    post: SimpleLogProcessor<E>,
    r: Result<(), LogError>,
) -> bool {
    if pre.stopped {
        &&& post == pre
        &&& r == Err::<(), LogError>(LogError::AlreadyShutdown)
    } else {
        &&& post.exporter == pre.exporter
        &&& post.stopped == false
        &&& post.pending_error is None
        &&& r == flush_result_of(pre.pending_error)
    }
}

/// How one `shutdown` call changes a simple processor: nothing is buffered,
/// so nothing is exported again; the stored emission failure is surrendered
/// and the processor stops accepting records.
pub open spec fn simple_shutdown_step<E: LogExporter>(
    pre: SimpleLogProcessor<E>,
    post: SimpleLogProcessor<E>,
    r: Result<(), LogError>,
) -> bool {
    if pre.stopped {
        &&& post == pre
        &&& r == Err::<(), LogError>(LogError::AlreadyShutdown)
    } else {
        &&& post.stopped
        &&& post.exporter.exported() == pre.exporter.exported()
        &&& post.pending_error is None
        &&& r == flush_result_of(pre.pending_error)
    }
}

/// How one `emit` call changes a batch processor: the record is enqueued
/// without touching the exporter, or dropped when the queue is full or the
/// processor is stopped.
pub open spec fn batch_emit_step<E: LogExporter>(
    pre: BatchLogProcessor<E>,
    post: BatchLogProcessor<E>,
    data: LogDataView,
) -> bool {
    if pre.stopped {
        post == pre
    } else {
        &&& post.stopped == false
        &&& post.exporter == pre.exporter
        &&& if pre.queue@.len() < MAX_QUEUE_SIZE {
            batch_view(post.queue@) == batch_view(pre.queue@).push(data)
        } else {
            post.queue == pre.queue
        }
    }
}

/// How one `force_flush` call changes a batch processor: every buffered
/// record is handed to the exporter as one batch, and the exporter's answer
/// for that batch is the result.
pub open spec fn batch_flush_step<E: LogExporter>(
    pre: BatchLogProcessor<E>,
    post: BatchLogProcessor<E>,
    r: Result<(), LogError>,
) -> bool {
    if pre.stopped {
        &&& post == pre
        &&& r == Err::<(), LogError>(LogError::AlreadyShutdown)
    } else if pre.queue@.len() == 0 {
        &&& post == pre
        &&& r == Ok::<(), LogError>(())
    } else {
        &&& post.stopped == false
        &&& post.queue@.len() == 0
        &&& post.exporter.exported() == pre.exporter.exported().push(batch_view(pre.queue@))
        &&& (r is Ok <==> pre.exporter.export_succeeds(batch_view(pre.queue@)))
    }
}

/// How one `shutdown` call changes a batch processor: a final flush of the
/// buffered records, then the exporter is released and the processor stops.
pub open spec fn batch_shutdown_step<E: LogExporter>(
    pre: BatchLogProcessor<E>,
    post: BatchLogProcessor<E>,
    r: Result<(), LogError>,
) -> bool {
    if pre.stopped {
        &&& post == pre
        &&& r == Err::<(), LogError>(LogError::AlreadyShutdown)
    } else if pre.queue@.len() == 0 {
        &&& post.stopped
        &&& post.queue@.len() == 0
        &&& post.exporter.exported() == pre.exporter.exported()
        &&& r == Ok::<(), LogError>(())
    } else {
        &&& post.stopped
        &&& post.queue@.len() == 0
        &&& post.exporter.exported() == pre.exporter.exported().push(batch_view(pre.queue@))
        &&& (r is Ok <==> pre.exporter.export_succeeds(batch_view(pre.queue@)))
    }
}

impl<E: LogExporter> SimpleLogProcessor<E> {
    pub fn new(exporter: E) -> (r: Self)
        ensures
            r.exporter == exporter,
            r.pending_error is None,
            !r.stopped,
    {
        SimpleLogProcessor { exporter, pending_error: None, stopped: false }
    }

    /// Export the record inline as a singleton batch. Never fails the
    /// caller: a delivery failure is kept for the next flush or shutdown.
    pub fn emit(&mut self, data: LogData)
        ensures
            simple_emit_step(*old(self), *final(self), data@),
    {
        if self.stopped {
            return ;
        }
        let ghost dataview = data@;
        let mut batch: Vec<LogData> = Vec::new();
        batch.push(data);
        proof {
            assert(batch_view(batch@) =~= seq![dataview]);
        }
        match self.exporter.export(batch) {
            Ok(()) => {},
            Err(e) => {
                if self.pending_error.is_none() {
                    self.pending_error = Some(e);
                }
            },
        }
    }

    /// Nothing is buffered, so only the stored emission failure is owed.
    pub fn force_flush(&mut self) -> (r: Result<(), LogError>)
        ensures
            simple_flush_step(*old(self), *final(self), r),
    {
        if self.stopped {
            return Err(LogError::AlreadyShutdown);
        }
        match self.pending_error.take() {
            None => Ok(()),
            Some(e) => Err(e),
        }
    }

    /// Stop accepting records and release the exporter; the stored emission
    /// failure, if any, is the result. A second call returns an error and
    /// exports nothing again.
    pub fn shutdown(&mut self) -> (r: Result<(), LogError>)
        ensures
            simple_shutdown_step(*old(self), *final(self), r),
    {
        if self.stopped {
            return Err(LogError::AlreadyShutdown);
        }
        self.stopped = true;
        self.exporter.shutdown();
        match self.pending_error.take() {
            None => Ok(()),
            Some(e) => Err(e),
        }
    }
}

impl<E: LogExporter> BatchLogProcessor<E> {
    pub fn new(exporter: E) -> (r: Self)
        ensures
            r.exporter == exporter,
            r.queue@.len() == 0,
            !r.stopped,
    {
        BatchLogProcessor { exporter, queue: Vec::new(), stopped: false }
    }

    /// Enqueue the record without touching the exporter; drop it when the
    /// queue is full or the processor is stopped.
    pub fn emit(&mut self, data: LogData)
        ensures
            batch_emit_step(*old(self), *final(self), data@),
    {
        if self.stopped {
            return ;
        }
        let ghost dataview = data@;
        let ghost prequeue = self.queue@;
        if self.queue.len() < MAX_QUEUE_SIZE {
            self.queue.push(data);
            proof {
                assert(batch_view(self.queue@) =~= batch_view(prequeue).push(dataview));
            }
        }
    }

    /// Hand every buffered record to the exporter as one batch and return
    /// the exporter's answer for it.
    pub fn force_flush(&mut self) -> (r: Result<(), LogError>)
        ensures
            batch_flush_step(*old(self), *final(self), r),
    {
        if self.stopped {
            return Err(LogError::AlreadyShutdown);
        }
        if self.queue.len() == 0 {
            return Ok(());
        }
        let ghost prequeue = self.queue@;
        let batch = self.queue.split_off(0);
        proof {
            assert(batch@ =~= prequeue);
            assert(self.queue@.len() == 0);
        }
        self.exporter.export(batch)
    }

    /// A final flush of the buffered records, then the exporter is released
    /// and the processor stops. A second call returns an error and exports
    /// nothing again.
    pub fn shutdown(&mut self) -> (r: Result<(), LogError>)
        ensures
            batch_shutdown_step(*old(self), *final(self), r),
    {
        if self.stopped {
            return Err(LogError::AlreadyShutdown);
        }
        self.stopped = true;
        if self.queue.len() == 0 {
            self.exporter.shutdown();
            return Ok(());
        }
        let ghost prequeue = self.queue@;
        let batch = self.queue.split_off(0);
        proof {
            assert(batch@ =~= prequeue);
        }
        let r = self.exporter.export(batch);
        self.exporter.shutdown();
        r
    }
}

/// A processing strategy in a provider's chain: one of the two built-in
/// variants behind a single interface.
pub enum LogProcessor<E: LogExporter> {
    Simple(SimpleLogProcessor<E>),
    Batch(BatchLogProcessor<E>),
}

impl<E: LogExporter> LogProcessor<E> {
    /// Batches this processor's exporter has been handed so far.
    pub open spec fn exported(self) -> Seq<Seq<LogDataView>> {
        match self {
            LogProcessor::Simple(p) => p.exporter.exported(),
            LogProcessor::Batch(p) => p.exporter.exported(),
        }
    }

    /// Records accepted and not yet handed to the exporter.
    pub open spec fn buffered(self) -> Seq<LogDataView> {
        match self {
            LogProcessor::Simple(p) => Seq::empty(),
            LogProcessor::Batch(p) => batch_view(p.queue@),
        }
    }

    /// Whether `shutdown` has run on this processor.
    pub open spec fn is_stopped(self) -> bool {
        match self {
            LogProcessor::Simple(p) => p.stopped,
            LogProcessor::Batch(p) => p.stopped,
        }
    }

    /// The queue bound is respected.
    pub open spec fn wf(self) -> bool {
        match self {
            LogProcessor::Simple(p) => true,
            LogProcessor::Batch(p) => p.queue@.len() <= MAX_QUEUE_SIZE,
        }
    }
}

/// How one `emit` call changes a processor of either variant.
pub open spec fn emit_step<E: LogExporter>(
    pre: LogProcessor<E>,
    post: LogProcessor<E>,
    data: LogDataView,
) -> bool {
    match (pre, post) {
        (LogProcessor::Simple(a), LogProcessor::Simple(b)) => simple_emit_step(a, b, data),
        (LogProcessor::Batch(a), LogProcessor::Batch(b)) => batch_emit_step(a, b, data),
        _ => false,
    }
}

/// How one `force_flush` call changes a processor of either variant.
pub open spec fn flush_step<E: LogExporter>(
    pre: LogProcessor<E>,
    post: LogProcessor<E>,
    r: Result<(), LogError>,
) -> bool {
    match (pre, post) {
        (LogProcessor::Simple(a), LogProcessor::Simple(b)) => simple_flush_step(a, b, r),
        (LogProcessor::Batch(a), LogProcessor::Batch(b)) => batch_flush_step(a, b, r),
        _ => false,
    }
}

/// How one `shutdown` call changes a processor of either variant.
pub open spec fn shutdown_step<E: LogExporter>(
    pre: LogProcessor<E>,
    post: LogProcessor<E>,
    r: Result<(), LogError>,
) -> bool {
    match (pre, post) {
        (LogProcessor::Simple(a), LogProcessor::Simple(b)) => simple_shutdown_step(a, b, r),
        (LogProcessor::Batch(a), LogProcessor::Batch(b)) => batch_shutdown_step(a, b, r),
        _ => false,
    }
}

impl<E: LogExporter> LogProcessor<E> {
    /// Accept one record; failures are kept for flush or shutdown time and
    /// never surfaced to the emitting caller.
    pub fn emit(&mut self, data: LogData)
        ensures
            emit_step(*old(self), *final(self), data@),
    {
        match self {
            LogProcessor::Simple(p) => p.emit(data),
            LogProcessor::Batch(p) => p.emit(data),
        }
    }

    /// Hand every buffered record to the exporter and surface the failure
    /// owed for this processor, if any.
    pub fn force_flush(&mut self) -> (r: Result<(), LogError>)
        ensures
            flush_step(*old(self), *final(self), r),
    {
        match self {
            LogProcessor::Simple(p) => p.force_flush(),
            LogProcessor::Batch(p) => p.force_flush(),
        }
    }

    /// Drain anything buffered, release the exporter and stop accepting
    /// records; a second call returns an error and exports nothing again.
    pub fn shutdown(&mut self) -> (r: Result<(), LogError>)
        ensures
            shutdown_step(*old(self), *final(self), r),
    {
        match self {
            LogProcessor::Simple(p) => p.shutdown(),
            LogProcessor::Batch(p) => p.shutdown(),
        }
    }
}

/// Law: a processor is drained by its first shutdown alone. A second
/// shutdown, whatever the first returned, changes nothing, hands nothing to
/// the exporter again, and answers that the processor was already shut down.
pub proof fn lemma_shutdown_drains_once<E: LogExporter>(
    p0: LogProcessor<E>,
    p1: LogProcessor<E>,
    p2: LogProcessor<E>,
    r1: Result<(), LogError>,
    r2: Result<(), LogError>,
)
    requires
        shutdown_step(p0, p1, r1),
        shutdown_step(p1, p2, r2),
    ensures
        p2 == p1,
        p2.exported() == p1.exported(),
        r2 == Err::<(), LogError>(LogError::AlreadyShutdown),
{
    assert(p1.is_stopped());
}

/// Emitting preserves the queue bound.
pub proof fn lemma_emit_step_preserves_wf<E: LogExporter>(
    pre: LogProcessor<E>,
    post: LogProcessor<E>,
    data: LogDataView,
)
    requires
        pre.wf(),
        emit_step(pre, post, data),
    ensures
        post.wf(),
{
    match (pre, post) {
        (LogProcessor::Batch(a), LogProcessor::Batch(b)) => {
            if !a.stopped && a.queue@.len() < MAX_QUEUE_SIZE {
                assert(batch_view(b.queue@).len() == b.queue@.len());
                assert(batch_view(a.queue@).len() == a.queue@.len());
            }
        },
        _ => {},
    }
}

} // verus!
