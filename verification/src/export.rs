//! The exporter capability: the sink that turns a batch of records into a
//! delivery, together with the full-provenance record handed to it.

use vstd::prelude::*;

use crate::common::{
    attrs_view, InstrumentationLibrary, InstrumentationLibraryView, KeyValue, KeyValueView,
    LogRecord, LogRecordView,
};
use crate::error::LogError;

verus! {

/// A record together with its full provenance: the resource of the provider
/// it was emitted through and the identity of the emitting library, both
/// copied at emission time.
pub struct LogData {
    pub record: LogRecord,
    pub resource: Vec<KeyValue>,
    pub instrumentation: InstrumentationLibrary,
}

/// Mathematical image of a [`LogData`].
pub struct LogDataView {
    pub record: LogRecordView,
    pub resource: Seq<KeyValueView>,
    pub instrumentation: InstrumentationLibraryView,
}

impl View for LogData {
    type V = LogDataView;

    open spec fn view(&self) -> LogDataView {
        LogDataView {
            record: self.record@,
            resource: attrs_view(self.resource@),
            instrumentation: self.instrumentation@,
        }
    }
}

/// Mathematical image of a batch of records.
pub open spec fn batch_view(batch: Seq<LogData>) -> Seq<LogDataView> {
    batch.map_values(|d: LogData| d@)
}

/// The sink a processor delivers batches to.
///
/// `exported()` is the abstract history of the exporter: every batch it has
/// been handed, oldest first. `export` must append exactly the batch it
/// receives, whether or not delivery succeeds, and must succeed exactly when
/// `export_succeeds` says so in the pre-state; `shutdown` releases resources
/// without touching the history. Failures of `export` are treated alike
/// whether they come from the transport or from the sink itself.
pub trait LogExporter: Sized {
    /// Batches handed to this exporter so far, oldest first.
    spec fn exported(&self) -> Seq<Seq<LogDataView>>;

    /// Whether exporting the given batch in the current state succeeds.
    spec fn export_succeeds(&self, batch: Seq<LogDataView>) -> bool;

    /// Deliver one batch.
    fn export(&mut self, batch: Vec<LogData>) -> (r: Result<(), LogError>)
        ensures
            final(self).exported() == old(self).exported().push(batch_view(batch@)),
            r is Ok <==> old(self).export_succeeds(batch_view(batch@)),
    ;

    /// Release the exporter's resources; the history of handed-over batches
    /// is not changed (in particular, nothing is exported again).
    fn shutdown(&mut self)
        ensures
            final(self).exported() == old(self).exported(),
    ;
}

/// An exporter that keeps every batch it is handed in memory, and fails
/// every delivery when asked to. Useful as a recording or always-failing
/// collaborator for the pipeline.
pub struct InMemoryExporter {
    /// Every batch handed to `export`, oldest first.
    pub batches: Vec<Vec<LogData>>,
    /// When set, every `export` call returns an error (the batch is still
    /// recorded as handed over).
    pub fail_exports: bool,
    /// Whether `shutdown` has been called.
    pub stopped: bool,
}

impl InMemoryExporter {
    /// A recording exporter whose deliveries all succeed.
    pub fn new() -> (r: Self)
        ensures
            r.batches@.len() == 0,
            !r.fail_exports,
            !r.stopped,
    {
        InMemoryExporter { batches: Vec::new(), fail_exports: false, stopped: false }
    }

    /// A recording exporter whose deliveries all fail.
    pub fn failing() -> (r: Self)
        ensures
            r.batches@.len() == 0,
            r.fail_exports,
            !r.stopped,
    {
        InMemoryExporter { batches: Vec::new(), fail_exports: true, stopped: false }
    }
}

/// Mathematical image of the recorded batches.
pub open spec fn recorded_view(batches: Seq<Vec<LogData>>) -> Seq<Seq<LogDataView>> {
    batches.map_values(|b: Vec<LogData>| batch_view(b@))
}

impl LogExporter for InMemoryExporter {
    open spec fn exported(&self) -> Seq<Seq<LogDataView>> {
        recorded_view(self.batches@)
    }

    open spec fn export_succeeds(&self, batch: Seq<LogDataView>) -> bool {
        !self.fail_exports
    }

    fn export(&mut self, batch: Vec<LogData>) -> (r: Result<(), LogError>)
        ensures
            final(self).exported() == old(self).exported().push(batch_view(batch@)),
            r is Ok <==> old(self).export_succeeds(batch_view(batch@)),
    {
        let ghost pre = self.batches@;
        let failing = self.fail_exports;
        self.batches.push(batch);
        proof {
            assert(recorded_view(self.batches@) =~= recorded_view(pre).push(
                batch_view(self.batches@[pre.len() as int]@),
            ));
        }
        if failing {
            Err(LogError::Export("export refused by sink".to_owned()))
        } else {
            Ok(())
        }
    }

    fn shutdown(&mut self)
        ensures
            final(self).exported() == old(self).exported(),
    {
        self.stopped = true;
    }
}

} // verus!
