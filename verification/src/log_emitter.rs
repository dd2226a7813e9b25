//! The provider/logger pipeline: a registry that owns every provider's
//! shared state, provider handles that carry shutdown authority through an
//! explicit owner count, and per-call-site loggers that hold only a
//! non-owning ticket into the registry.
//!
//! Shared ownership works through exclusivity: a provider's state is owned
//! by `strong` handles; only the last one may drain the processors, and a
//! shutdown attempted while another handle is alive is refused rather than
//! blocked. Loggers never take part in this count: a logger whose provider
//! is gone becomes permanently inert, and emitting through it is a silent
//! drop.

use vstd::prelude::*;

use crate::common::{
    attrs_view, clone_attrs, default_component_name, opt_attrs_view, opt_string_view,
    spec_default_component_name, Config, InstrumentationLibrary, InstrumentationLibraryView,
    KeyValue, LogRecord, LogRecordView,
};
use crate::error::LogError;
use crate::export::{LogData, LogDataView, LogExporter};
use crate::processor::{
    emit_step, flush_step, lemma_emit_step_preserves_wf, shutdown_step, BatchLogProcessor,
    LogProcessor, SimpleLogProcessor,
};
use crate::runtime::LogRuntime;

verus! {

/// State shared by every handle of one provider: the frozen processor
/// chain, the provider-wide configuration, and the number of handles that
/// currently own it.
pub struct LoggerProviderInner<E: LogExporter> {
    /// The processor chain, in registration order; append-only before
    /// `build` and immutable afterwards.
    pub processors: Vec<LogProcessor<E>>,
    /// Provider-wide settings, immutable after `build`.
    pub config: Config,
    /// Number of provider handles that own this state.
    pub strong: usize,
}

impl<E: LogExporter> LoggerProviderInner<E> {
    /// At least one handle owns a live state, and every processor respects
    /// its queue bound.
    pub open spec fn wf(self) -> bool {
        &&& self.strong >= 1
        &&& forall|i: int|
            0 <= i < self.processors@.len() ==> (#[trigger] self.processors@[i]).wf()
    }
}

/// A slot is either a live provider state or the trace of a released one.
pub open spec fn slot_wf<E: LogExporter>(slot: Option<LoggerProviderInner<E>>) -> bool {
    match slot {
        Some(inner) => inner.wf(),
        None => true,
    }
}

/// Owns every provider's shared state and the process-wide error sink.
///
/// Handles and loggers refer to a provider by a ticket: the index of its
/// slot. Slots are never reused, so a ticket stays meaningful after its
/// provider is gone — the slot then reads `None` and the logger that holds
/// the ticket is inert. The sink receives every failure that has no caller
/// to be returned to.
pub struct ProviderRegistry<E: LogExporter> {
    pub slots: Vec<Option<LoggerProviderInner<E>>>,
    /// The process-wide error sink, oldest entry first.
    pub sink: Vec<LogError>,
}

impl<E: LogExporter> ProviderRegistry<E> {
    pub fn new() -> (r: Self)
        ensures
            r.slots@.len() == 0,
            r.sink@.len() == 0,
            r.inv(),
    {
        ProviderRegistry { slots: Vec::new(), sink: Vec::new() }
    }

    /// Every live slot is well-formed.
    pub open spec fn inv(self) -> bool {
        forall|t: int| 0 <= t < self.slots@.len() ==> slot_wf(#[trigger] self.slots@[t])
    }

    /// Whether the provider behind `ticket` is still alive.
    pub open spec fn alive(self, ticket: usize) -> bool {
        ticket < self.slots@.len() && self.slots@[ticket as int] is Some
    }

    /// The shared state behind a live ticket.
    pub open spec fn shared(self, ticket: usize) -> LoggerProviderInner<E>
        recommends
            self.alive(ticket),
    {
        self.slots@[ticket as int]->Some_0
    }
}

/// A handle to one provider's shared state: the unit of shutdown authority.
/// Handles are linear: each one is created by `build`, `clone_handle` or a
/// logger's `provider`, and given up exactly once through `release` (or by
/// being the handle a successful shutdown was asked through).
pub struct LoggerProvider {
    pub ticket: usize,
}

/// The record provenance an emission through `logger` attaches, given the
/// configuration active at emission time.
pub open spec fn emitted_data(
    record: LogRecordView,
    config: Config,
    lib: InstrumentationLibraryView,
) -> LogDataView {
    LogDataView { record, resource: attrs_view(config.resource@), instrumentation: lib }
}

impl LoggerProvider {
    /// Wrap a ticket in a handle; callers are responsible for the owner
    /// count having been raised for it.
    fn new(ticket: usize) -> (r: Self)
        ensures
            r.ticket == ticket,
    {
        LoggerProvider { ticket }
    }

    /// An empty builder.
    pub fn builder<E: LogExporter>() -> (r: Builder<E>)
        ensures
            r.processors@.len() == 0,
            r.config.resource@.len() == 0,
    {
        Builder::default()
    }

    /// A logger for the named instrumentation library. An empty name is
    /// replaced by the fixed default component name; the processor chain is
    /// never touched and the call always succeeds.
    pub fn versioned_log_emitter(
        &self,
        name: String,
        version: Option<String>,
        schema_url: Option<String>,
        attributes: Option<Vec<KeyValue>>,
    ) -> (r: Logger)
        ensures
            r.ticket == self.ticket,
            r.instrumentation_lib@ == (InstrumentationLibraryView {
                name: if name@.len() == 0 {
                    spec_default_component_name()
                } else {
                    name@
                },
                version: opt_string_view(version),
                schema_url: opt_string_view(schema_url),
                attributes: opt_attrs_view(attributes),
            }),
    {
        let component_name = if name.as_str().unicode_len() == 0 {
            default_component_name().to_owned()
        } else {
            name
        };
        Logger::new(
            InstrumentationLibrary::new(component_name, version, schema_url, attributes),
            self.ticket,
        )
    }

    /// A logger for the named instrumentation library, with no version,
    /// schema URL or extra attributes.
    pub fn logger(&self, name: String) -> (r: Logger)
        ensures
            r.ticket == self.ticket,
            r.instrumentation_lib@.name == if name@.len() == 0 {
                spec_default_component_name()
            } else {
                name@
            },
            r.instrumentation_lib@.version is None,
            r.instrumentation_lib@.schema_url is None,
            r.instrumentation_lib@.attributes is None,
    {
        self.versioned_log_emitter(name, None, None, None)
    }

    /// The configuration this provider was built with.
    pub fn config<'a, E: LogExporter>(&self, registry: &'a ProviderRegistry<E>) -> (r: &'a Config)
        requires
            registry.alive(self.ticket),
        ensures
            *r == registry.shared(self.ticket).config,
    {
        let inner = registry.slots[self.ticket].as_ref().unwrap();
        &inner.config
    }

    /// The processor chain, in registration order.
    pub fn log_processors<'a, E: LogExporter>(
        &self,
        registry: &'a ProviderRegistry<E>,
    ) -> (r: &'a Vec<LogProcessor<E>>)
        requires
            registry.alive(self.ticket),
        ensures
            r@ == registry.shared(self.ticket).processors@,
    {
        let inner = registry.slots[self.ticket].as_ref().unwrap();
        &inner.processors
    }

    /// A second handle to the same shared state; the owner count grows
    /// with it.
    pub fn clone_handle<E: LogExporter>(
        &self,
        registry: &mut ProviderRegistry<E>,
    ) -> (r: LoggerProvider)
        requires
            old(registry).inv(),
            old(registry).alive(self.ticket),
            old(registry).shared(self.ticket).strong < usize::MAX,
        ensures
            final(registry).inv(),
            r.ticket == self.ticket,
            final(registry).alive(self.ticket),
            final(registry).slots@.len() == old(registry).slots@.len(),
            forall|t: int|
                0 <= t < final(registry).slots@.len() && t != self.ticket ==> final(registry).slots@[t]
                    == old(registry).slots@[t],
            final(registry).sink == old(registry).sink,
            final(registry).shared(self.ticket).processors == old(registry).shared(
                self.ticket,
            ).processors,
            final(registry).shared(self.ticket).config == old(registry).shared(self.ticket).config,
            final(registry).shared(self.ticket).strong == old(registry).shared(self.ticket).strong + 1,
    {
        let slot = &mut registry.slots[self.ticket];
        let mut inner = slot.take().unwrap();
        inner.strong = inner.strong + 1;
        registry.slots[self.ticket] = Some(inner);
        LoggerProvider::new(self.ticket)
    }

    /// Ask every processor, in registration order, to flush; one result per
    /// processor. A failure does not stop the walk: every processor is
    /// given the chance to flush.
    pub fn force_flush<E: LogExporter>(
        &self,
        registry: &mut ProviderRegistry<E>,
    ) -> (results: Vec<Result<(), LogError>>)
        requires
            old(registry).inv(),
            old(registry).alive(self.ticket),
        ensures
            final(registry).inv(),
            final(registry).alive(self.ticket),
            final(registry).slots@.len() == old(registry).slots@.len(),
            forall|t: int|
                0 <= t < final(registry).slots@.len() && t != self.ticket ==> final(registry).slots@[t]
                    == old(registry).slots@[t],
            final(registry).sink == old(registry).sink,
            final(registry).shared(self.ticket).config == old(registry).shared(self.ticket).config,
            final(registry).shared(self.ticket).strong == old(registry).shared(self.ticket).strong,
            final(registry).shared(self.ticket).processors@.len() == old(registry).shared(
                self.ticket,
            ).processors@.len(),
            results@.len() == old(registry).shared(self.ticket).processors@.len(),
            forall|i: int|
                0 <= i < results@.len() ==> flush_step(
                    old(registry).shared(self.ticket).processors@[i],
                    final(registry).shared(self.ticket).processors@[i],
                    #[trigger] results@[i],
                ),
    {
        let ghost slots_pre = old(registry).slots@;
        let slot = &mut registry.slots[self.ticket];
        let mut inner = slot.take().unwrap();
        let ghost inner0 = inner;
        let ghost procs0 = inner.processors@;
        let ghost slots_mid = registry.slots@;
        let ghost sink_mid = registry.sink@;
        let mut results: Vec<Result<(), LogError>> = Vec::new();
        let mut i: usize = 0;
        while i < inner.processors.len()
            invariant
                i <= procs0.len(),
                inner.processors@.len() == procs0.len(),
                inner.config == inner0.config,
                inner.strong == inner0.strong,
                registry.slots@ == slots_mid,
                registry.sink@ == sink_mid,
                results@.len() == i,
                forall|j: int| 0 <= j < procs0.len() ==> (#[trigger] procs0[j]).wf(),
                forall|j: int|
                    0 <= j < i ==> flush_step(
                        procs0[j],
                        inner.processors@[j],
                        #[trigger] results@[j],
                    ),
                forall|j: int|
                    i <= j < procs0.len() ==> #[trigger] inner.processors@[j] == procs0[j],
                forall|j: int|
                    0 <= j < procs0.len() ==> (#[trigger] inner.processors@[j]).wf(),
            decreases procs0.len() - i,
        {
            let p = &mut inner.processors[i];
            let r = p.force_flush();
            results.push(r);
            i += 1;
        }
        registry.slots[self.ticket] = Some(inner);
        proof {
            assert forall|t: int|
                0 <= t < registry.slots@.len() implies slot_wf(#[trigger] registry.slots@[t]) by {
                if t != self.ticket as int {
                    assert(registry.slots@[t] == slots_pre[t]);
                }
            }
        }
        results
    }

    /// Attempt the exclusivity-gated shutdown: succeeds exactly when this
    /// is the only handle, in which case every processor is shut down in
    /// registration order and one result per processor is returned; while
    /// other handles are alive the attempt is refused with no side effect.
    pub fn try_shutdown<E: LogExporter>(
        &self,
        registry: &mut ProviderRegistry<E>,
    ) -> (r: Option<Vec<Result<(), LogError>>>)
        requires
            old(registry).inv(),
            old(registry).alive(self.ticket),
        ensures
            final(registry).inv(),
            (r is Some) <==> old(registry).shared(self.ticket).strong == 1,
            r is None ==> *final(registry) == *old(registry),
            r matches Some(results) ==> shutdown_observed(
                *old(registry),
                *final(registry),
                self.ticket,
                results@,
            ),
    {
        let strong = registry.slots[self.ticket].as_ref().unwrap().strong;
        if strong != 1 {
            return None;
        }
        let ghost slots_pre = old(registry).slots@;
        let slot = &mut registry.slots[self.ticket];
        let mut inner = slot.take().unwrap();
        let ghost inner0 = inner;
        let ghost procs0 = inner.processors@;
        let ghost slots_mid = registry.slots@;
        let ghost sink_mid = registry.sink@;
        let mut results: Vec<Result<(), LogError>> = Vec::new();
        let mut i: usize = 0;
        while i < inner.processors.len()
            invariant
                i <= procs0.len(),
                inner.processors@.len() == procs0.len(),
                inner.config == inner0.config,
                inner.strong == inner0.strong,
                registry.slots@ == slots_mid,
                registry.sink@ == sink_mid,
                results@.len() == i,
                forall|j: int| 0 <= j < procs0.len() ==> (#[trigger] procs0[j]).wf(),
                forall|j: int|
                    0 <= j < i ==> shutdown_step(
                        procs0[j],
                        inner.processors@[j],
                        #[trigger] results@[j],
                    ),
                forall|j: int|
                    i <= j < procs0.len() ==> #[trigger] inner.processors@[j] == procs0[j],
                forall|j: int|
                    0 <= j < procs0.len() ==> (#[trigger] inner.processors@[j]).wf(),
            decreases procs0.len() - i,
        {
            let p = &mut inner.processors[i];
            let r = p.shutdown();
            results.push(r);
            i += 1;
        }
        registry.slots[self.ticket] = Some(inner);
        proof {
            assert forall|t: int|
                0 <= t < registry.slots@.len() implies slot_wf(#[trigger] registry.slots@[t]) by {
                if t != self.ticket as int {
                    assert(registry.slots@[t] == slots_pre[t]);
                }
            }
        }
        Some(results)
    }

    /// Shut the provider down, requiring exclusive ownership: calling this
    /// while another handle is alive is a misuse this contract rules out
    /// (the non-panicking `try_shutdown` exists for callers who cannot
    /// guarantee exclusivity).
    pub fn shutdown<E: LogExporter>(
        &self,
        registry: &mut ProviderRegistry<E>,
    ) -> (results: Vec<Result<(), LogError>>)
        requires
            old(registry).inv(),
            old(registry).alive(self.ticket),
            old(registry).shared(self.ticket).strong == 1,
        ensures
            final(registry).inv(),
            shutdown_observed(*old(registry), *final(registry), self.ticket, results@),
    {
        let r = self.try_shutdown(registry);
        match r {
            Some(results) => results,
            None => {
                proof {
                    assert(false);
                }
                Vec::new()
            },
        }
    }

    /// Give this handle up. The last handle's release attempts the same
    /// exclusivity-gated shutdown and, having no caller to answer to,
    /// reports every processor-shutdown error to the sink and retires the
    /// slot; a non-final release only lowers the owner count and reports
    /// the refused shutdown attempt to the sink.
    pub fn release<E: LogExporter>(self, registry: &mut ProviderRegistry<E>)
        requires
            old(registry).inv(),
            old(registry).alive(self.ticket),
        ensures
            final(registry).inv(),
            final(registry).slots@.len() == old(registry).slots@.len(),
            forall|t: int|
                0 <= t < final(registry).slots@.len() && t != self.ticket ==> final(registry).slots@[t]
                    == old(registry).slots@[t],
            old(registry).shared(self.ticket).strong > 1 ==> {
                &&& final(registry).alive(self.ticket)
                &&& final(registry).shared(self.ticket).processors == old(registry).shared(
                    self.ticket,
                ).processors
                &&& final(registry).shared(self.ticket).config == old(registry).shared(self.ticket).config
                &&& final(registry).shared(self.ticket).strong == old(registry).shared(
                    self.ticket,
                ).strong - 1
                &&& final(registry).sink@ == old(registry).sink@.push(LogError::ShutdownRefused)
            },
            old(registry).shared(self.ticket).strong == 1 ==> {
                &&& final(registry).slots@[self.ticket as int] is None
                &&& drained_into_sink(
                    old(registry).shared(self.ticket).processors@,
                    old(registry).sink@,
                    final(registry).sink@,
                )
            },
    {
        let ghost slots_pre = old(registry).slots@;
        let ghost sink0 = old(registry).sink@;
        let slot = &mut registry.slots[self.ticket];
        let mut inner = slot.take().unwrap();
        if inner.strong > 1 {
            inner.strong = inner.strong - 1;
            registry.slots[self.ticket] = Some(inner);
            registry.sink.push(LogError::ShutdownRefused);
            proof {
                assert forall|t: int|
                    0 <= t < registry.slots@.len() implies slot_wf(
                    #[trigger] registry.slots@[t],
                ) by {
                    if t != self.ticket as int {
                        assert(registry.slots@[t] == slots_pre[t]);
                    }
                }
            }
            return ;
        }
        let ghost inner0 = inner;
        let ghost procs0 = inner.processors@;
        let ghost slots_mid = registry.slots@;
        let ghost mut rs_seq: Seq<Result<(), LogError>> = Seq::empty();
        let mut i: usize = 0;
        while i < inner.processors.len()
            invariant
                i <= procs0.len(),
                inner.processors@.len() == procs0.len(),
                registry.slots@ == slots_mid,
                rs_seq.len() == i,
                registry.sink@ == sink0 + errors_of(rs_seq),
                forall|j: int| 0 <= j < procs0.len() ==> (#[trigger] procs0[j]).wf(),
                forall|j: int|
                    0 <= j < i ==> shutdown_step(procs0[j], inner.processors@[j], #[trigger] rs_seq[j]),
                forall|j: int|
                    i <= j < procs0.len() ==> #[trigger] inner.processors@[j] == procs0[j],
            decreases procs0.len() - i,
        {
            let p = &mut inner.processors[i];
            let r = p.shutdown();
            proof {
                let prev = rs_seq;
                rs_seq = rs_seq.push(r);
                assert(rs_seq.drop_last() =~= prev);
            }
            match r {
                Ok(u) => {},
                Err(e) => {
                    registry.sink.push(e);
                    proof {
                        assert(registry.sink@ =~= sink0 + errors_of(rs_seq));
                    }
                },
            }
            i += 1;
        }
        proof {
            let posts = inner.processors@;
            assert(posts.len() == procs0.len());
            assert(rs_seq.len() == procs0.len());
            assert(registry.sink@ == sink0 + errors_of(rs_seq));
            assert(drained_into_sink(procs0, sink0, registry.sink@));
            assert forall|t: int|
                0 <= t < registry.slots@.len() implies slot_wf(#[trigger] registry.slots@[t]) by {
                if t != self.ticket as int {
                    assert(registry.slots@[t] == slots_pre[t]);
                }
            }
        }
    }
}

/// How one successful drain through a provider handle with the given
/// ticket changes the registry: one result per processor and a shutdown
/// step each, in registration order, with the configuration, the owner
/// count, the sink and every other provider untouched.
pub open spec fn shutdown_observed<E: LogExporter>(
    pre: ProviderRegistry<E>,
    post: ProviderRegistry<E>,
    ticket: usize,
    results: Seq<Result<(), LogError>>,
) -> bool {
    &&& pre.alive(ticket)
    &&& post.alive(ticket)
    &&& post.slots@.len() == pre.slots@.len()
    &&& (forall|t: int|
        0 <= t < post.slots@.len() && t != ticket ==> post.slots@[t] == pre.slots@[t])
    &&& post.sink == pre.sink
    &&& post.shared(ticket).config == pre.shared(ticket).config
    &&& post.shared(ticket).strong == pre.shared(ticket).strong
    &&& post.shared(ticket).processors@.len() == pre.shared(ticket).processors@.len()
    &&& results.len() == pre.shared(ticket).processors@.len()
    &&& (forall|i: int|
        0 <= i < results.len() ==> shutdown_step(
            pre.shared(ticket).processors@[i],
            post.shared(ticket).processors@[i],
            #[trigger] results[i],
        ))
}

/// Law: a provider's chain is drained by its first successful shutdown
/// alone. Whatever the first drain returned, a second one changes no
/// processor, hands nothing to any exporter again, and answers for every
/// processor that it was already shut down.
pub proof fn lemma_provider_drains_once<E: LogExporter>(
    r0: ProviderRegistry<E>,
    r1: ProviderRegistry<E>,
    r2: ProviderRegistry<E>,
    ticket: usize,
    rs1: Seq<Result<(), LogError>>,
    rs2: Seq<Result<(), LogError>>,
)
    requires
        shutdown_observed(r0, r1, ticket, rs1),
        shutdown_observed(r1, r2, ticket, rs2),
    ensures
        forall|i: int|
            0 <= i < rs2.len() ==> #[trigger] rs2[i] == Err::<(), LogError>(
                LogError::AlreadyShutdown,
            ),
        forall|i: int|
            0 <= i < rs2.len() ==> #[trigger] r2.shared(ticket).processors@[i] == r1.shared(
                ticket,
            ).processors@[i],
{
    assert forall|i: int|
        0 <= i < rs2.len() implies #[trigger] rs2[i] == Err::<(), LogError>(
        LogError::AlreadyShutdown,
    ) by {
        crate::processor::lemma_shutdown_drains_once(
            r0.shared(ticket).processors@[i],
            r1.shared(ticket).processors@[i],
            r2.shared(ticket).processors@[i],
            rs1[i],
            rs2[i],
        );
    }
    assert forall|i: int|
        0 <= i < rs2.len() implies #[trigger] r2.shared(ticket).processors@[i] == r1.shared(
        ticket,
    ).processors@[i] by {
        crate::processor::lemma_shutdown_drains_once(
            r0.shared(ticket).processors@[i],
            r1.shared(ticket).processors@[i],
            r2.shared(ticket).processors@[i],
            rs1[i],
            rs2[i],
        );
    }
}

/// The errors among a sequence of per-processor results, in order.
pub open spec fn errors_of(rs: Seq<Result<(), LogError>>) -> Seq<LogError>
    decreases rs.len(),
{
    if rs.len() == 0 {
        Seq::empty()
    } else {
        match rs.last() {
            Ok(u) => errors_of(rs.drop_last()),
            Err(e) => errors_of(rs.drop_last()).push(e),
        }
    }
}

/// Some shutdown of the given processor chain accounts exactly for the
/// sink's growth: one result per processor, a shutdown step each, and the
/// sink extended by the errors among those results, in order.
pub open spec fn drained_into_sink<E: LogExporter>(
    procs: Seq<LogProcessor<E>>,
    sink_pre: Seq<LogError>,
    sink_post: Seq<LogError>,
) -> bool {
    exists|posts: Seq<LogProcessor<E>>, rs: Seq<Result<(), LogError>>|
        #![trigger posts.len(), rs.len()]
        {
            &&& posts.len() == procs.len()
            &&& rs.len() == procs.len()
            &&& (forall|i: int| 0 <= i < procs.len() ==> shutdown_step(procs[i], posts[i], #[trigger] rs[i]))
            &&& sink_post == sink_pre + errors_of(rs)
        }
}

/// Accumulates processors and configuration declaratively; every method
/// consumes and returns the builder by value, so construction is a linear
/// pipeline.
pub struct Builder<E: LogExporter> {
    pub processors: Vec<LogProcessor<E>>,
    pub config: Config,
}

impl<E: LogExporter> Builder<E> {
    /// Every accumulated processor respects its queue bound.
    pub open spec fn wf(self) -> bool {
        forall|i: int| 0 <= i < self.processors@.len() ==> (#[trigger] self.processors@[i]).wf()
    }

    /// Wrap the exporter in a simple processor and append it.
    pub fn with_simple_exporter(self, exporter: E) -> (r: Self)
        ensures
            r.config == self.config,
            r.processors@.len() == self.processors@.len() + 1,
            forall|j: int|
                0 <= j < self.processors@.len() ==> r.processors@[j] == self.processors@[j],
            r.processors@.last() matches LogProcessor::Simple(p) && p.exporter == exporter
                && p.pending_error is None && !p.stopped,
            self.wf() ==> r.wf(),
    {
        let mut processors = self.processors;
        processors.push(LogProcessor::Simple(SimpleLogProcessor::new(exporter)));
        Builder { processors, config: self.config }
    }

    /// Wrap the exporter in a batch processor and append it; the new
    /// processor starts with an empty queue. The runtime token names the
    /// scheduler the caller runs the pipeline under; the built-in batch
    /// processor drains at flush and shutdown time, so beyond selecting a
    /// transport binding the token has no further role here.
    pub fn with_batch_exporter<R: LogRuntime>(self, exporter: E, _runtime: R) -> (r: Self)
        ensures
            r.config == self.config,
            r.processors@.len() == self.processors@.len() + 1,
            forall|j: int|
                0 <= j < self.processors@.len() ==> r.processors@[j] == self.processors@[j],
            r.processors@.last() matches LogProcessor::Batch(p) && p.exporter == exporter
                && p.queue@.len() == 0 && !p.stopped,
            self.wf() ==> r.wf(),
    {
        let batch = BatchLogProcessor::new(exporter);
        self.with_log_processor(LogProcessor::Batch(batch))
    }

    /// Append a processor directly.
    pub fn with_log_processor(self, processor: LogProcessor<E>) -> (r: Self)
        ensures
            r.config == self.config,
            r.processors@ == self.processors@.push(processor),
            self.wf() && processor.wf() ==> r.wf(),
    {
        let mut processors = self.processors;
        processors.push(processor);
        Builder { processors, config: self.config }
    }

    /// Replace the configuration.
    pub fn with_config(self, config: Config) -> (r: Self)
        ensures
            r.config == config,
            r.processors == self.processors,
    {
        Builder { processors: self.processors, config }
    }

    /// Freeze the accumulated chain and configuration into a new,
    /// independently owned provider with exactly one handle.
    pub fn build(self, registry: &mut ProviderRegistry<E>) -> (r: LoggerProvider)
        requires
            old(registry).inv(),
            self.wf(),
        ensures
            final(registry).inv(),
            r.ticket == old(registry).slots@.len(),
            final(registry).slots@ == old(registry).slots@.push(
                Some(
                    (LoggerProviderInner {
                        processors: self.processors,
                        config: self.config,
                        strong: 1,
                    }),
                ),
            ),
            final(registry).sink == old(registry).sink,
            final(registry).alive(r.ticket),
    {
        let ticket = registry.slots.len();
        registry.slots.push(
            Some(LoggerProviderInner { processors: self.processors, config: self.config, strong: 1 }),
        );
        LoggerProvider::new(ticket)
    }
}

impl<E: LogExporter> Default for Builder<E> {
    fn default() -> (r: Self)
        ensures
            r.processors@.len() == 0,
            r.config.resource@.len() == 0,
    {
        Builder { processors: Vec::new(), config: Config::default() }
    }
}

/// The per-call-site emission handle: the identity of the emitting library
/// together with a non-owning ticket to the provider. A logger never keeps
/// its provider alive and never blocks its shutdown.
pub struct Logger {
    pub instrumentation_lib: InstrumentationLibrary,
    pub ticket: usize,
}

/// How one emission through `logger` changes the registry: nothing at all
/// once the provider is gone; otherwise exactly one emit step per processor
/// in registration order, with the record's provenance taken from the
/// configuration active at emission time, and nothing else touched.
pub open spec fn emit_observed<E: LogExporter>(
    pre: ProviderRegistry<E>,
    post: ProviderRegistry<E>,
    logger: Logger,
    record: LogRecord,
) -> bool {
    &&& (!pre.alive(logger.ticket) ==> post == pre)
    &&& (pre.alive(logger.ticket) ==> {
        &&& post.alive(logger.ticket)
        &&& post.slots@.len() == pre.slots@.len()
        &&& (forall|t: int|
            0 <= t < post.slots@.len() && t != logger.ticket ==> post.slots@[t] == pre.slots@[t])
        &&& post.sink == pre.sink
        &&& post.shared(logger.ticket).config == pre.shared(logger.ticket).config
        &&& post.shared(logger.ticket).strong == pre.shared(logger.ticket).strong
        &&& post.shared(logger.ticket).processors@.len() == pre.shared(
            logger.ticket,
        ).processors@.len()
        &&& (forall|i: int|
            0 <= i < pre.shared(logger.ticket).processors@.len() ==> emit_step(
                #[trigger] pre.shared(logger.ticket).processors@[i],
                post.shared(logger.ticket).processors@[i],
                emitted_data(
                    record@,
                    pre.shared(logger.ticket).config,
                    logger.instrumentation_lib@,
                ),
            ))
    })
}

impl Logger {
    /// Pair an instrumentation library with a provider ticket.
    fn new(instrumentation_lib: InstrumentationLibrary, ticket: usize) -> (r: Self)
        ensures
            r.instrumentation_lib == instrumentation_lib,
            r.ticket == ticket,
    {
        Logger { instrumentation_lib, ticket }
    }

    /// The identity of the code this logger emits for.
    pub fn instrumentation_library(&self) -> (r: &InstrumentationLibrary)
        ensures
            *r == self.instrumentation_lib,
    {
        &self.instrumentation_lib
    }

    /// Attempt to upgrade the non-owning ticket into a new owning handle;
    /// answers `None` once the provider is gone. A successful upgrade
    /// raises the owner count, so the new handle must be released like any
    /// other.
    pub fn provider<E: LogExporter>(&self, registry: &mut ProviderRegistry<E>) -> (r: Option<
        LoggerProvider,
    >)
        requires
            old(registry).inv(),
            old(registry).alive(self.ticket) ==> old(registry).shared(self.ticket).strong
                < usize::MAX,
        ensures
            final(registry).inv(),
            !old(registry).alive(self.ticket) ==> (r is None && *final(registry) == *old(registry)),
            old(registry).alive(self.ticket) ==> {
                &&& r == Some((LoggerProvider { ticket: self.ticket }))
                &&& final(registry).alive(self.ticket)
                &&& final(registry).slots@.len() == old(registry).slots@.len()
                &&& (forall|t: int|
                    0 <= t < final(registry).slots@.len() && t != self.ticket ==> final(registry).slots@[t]
                        == old(registry).slots@[t])
                &&& final(registry).sink == old(registry).sink
                &&& final(registry).shared(self.ticket).processors == old(registry).shared(
                    self.ticket,
                ).processors
                &&& final(registry).shared(self.ticket).config == old(registry).shared(self.ticket).config
                &&& final(registry).shared(self.ticket).strong == old(registry).shared(
                    self.ticket,
                ).strong + 1
            },
    {
        if self.ticket >= registry.slots.len() {
            return None;
        }
        if registry.slots[self.ticket].is_none() {
            return None;
        }
        let ghost slots_pre = old(registry).slots@;
        let slot = &mut registry.slots[self.ticket];
        let mut inner = slot.take().unwrap();
        inner.strong = inner.strong + 1;
        registry.slots[self.ticket] = Some(inner);
        proof {
            assert forall|t: int|
                0 <= t < registry.slots@.len() implies slot_wf(#[trigger] registry.slots@[t]) by {
                if t != self.ticket as int {
                    assert(registry.slots@[t] == slots_pre[t]);
                }
            }
        }
        Some(LoggerProvider::new(self.ticket))
    }

    /// Emit one record. Once the provider is gone this is a silent no-op:
    /// no error, no panic, the record is discarded. Otherwise one record
    /// with full provenance is handed to every processor in registration
    /// order; a delivery failure inside one processor never keeps the
    /// record from the remaining ones, and nothing is surfaced to the
    /// caller.
    pub fn emit<E: LogExporter>(&self, registry: &mut ProviderRegistry<E>, record: LogRecord)
        requires
            old(registry).inv(),
        ensures
            final(registry).inv(),
            emit_observed(*old(registry), *final(registry), *self, record),
    {
        if self.ticket >= registry.slots.len() {
            return ;
        }
        if registry.slots[self.ticket].is_none() {
            return ;
        }
        let ghost slots_pre = old(registry).slots@;
        let slot = &mut registry.slots[self.ticket];
        let mut inner = slot.take().unwrap();
        let ghost inner0 = inner;
        let ghost procs0 = inner.processors@;
        let ghost slots_mid = registry.slots@;
        let ghost sink_mid = registry.sink@;
        let ghost dataview = emitted_data(record@, inner0.config, self.instrumentation_lib@);
        let mut i: usize = 0;
        while i < inner.processors.len()
            invariant
                i <= procs0.len(),
                inner.processors@.len() == procs0.len(),
                inner.config == inner0.config,
                inner.strong == inner0.strong,
                registry.slots@ == slots_mid,
                registry.sink@ == sink_mid,
                dataview == emitted_data(record@, inner0.config, self.instrumentation_lib@),
                forall|j: int| 0 <= j < procs0.len() ==> (#[trigger] procs0[j]).wf(),
                forall|j: int|
                    0 <= j < i ==> emit_step(
                        procs0[j],
                        #[trigger] inner.processors@[j],
                        dataview,
                    ),
                forall|j: int|
                    i <= j < procs0.len() ==> #[trigger] inner.processors@[j] == procs0[j],
                forall|j: int|
                    0 <= j < procs0.len() ==> (#[trigger] inner.processors@[j]).wf(),
            decreases procs0.len() - i,
        {
            let data = LogData {
                record: record.clone(),
                resource: clone_attrs(&inner.config.resource),
                instrumentation: self.instrumentation_lib.clone(),
            };
            proof {
                assert(data@ == dataview);
            }
            let p = &mut inner.processors[i];
            p.emit(data);
            proof {
                lemma_emit_step_preserves_wf(
                    procs0[i as int],
                    inner.processors@[i as int],
                    dataview,
                );
            }
            i += 1;
        }
        registry.slots[self.ticket] = Some(inner);
        proof {
            assert forall|t: int|
                0 <= t < registry.slots@.len() implies slot_wf(#[trigger] registry.slots@[t]) by {
                if t != self.ticket as int {
                    assert(registry.slots@[t] == slots_pre[t]);
                }
            }
        }
    }
}

/// Law: over any sequence of emissions through one logger, a simple
/// processor that starts live receives — through its exporter — exactly one
/// singleton batch per emission, in emission order, each carrying the
/// provenance fixed by the configuration active when the sequence began.
pub proof fn lemma_emits_deliver_in_order<E: LogExporter>(
    regs: Seq<ProviderRegistry<E>>,
    logger: Logger,
    records: Seq<LogRecord>,
    k: int,
)
    requires
        regs.len() == records.len() + 1,
        forall|j: int|
            0 <= j < records.len() ==> emit_observed(regs[j], regs[j + 1], logger, records[j]),
        regs[0].alive(logger.ticket),
        0 <= k < regs[0].shared(logger.ticket).processors@.len(),
        regs[0].shared(logger.ticket).processors@[k] is Simple,
        !regs[0].shared(logger.ticket).processors@[k].is_stopped(),
    ensures
        regs.last().alive(logger.ticket),
        regs.last().shared(logger.ticket).config == regs[0].shared(logger.ticket).config,
        regs.last().shared(logger.ticket).processors@.len() == regs[0].shared(
            logger.ticket,
        ).processors@.len(),
        regs.last().shared(logger.ticket).processors@[k] is Simple,
        !regs.last().shared(logger.ticket).processors@[k].is_stopped(),
        regs.last().shared(logger.ticket).processors@[k].exported() == regs[0].shared(
            logger.ticket,
        ).processors@[k].exported() + records.map_values(
            |rec: LogRecord|
                seq![
                    emitted_data(
                        rec@,
                        regs[0].shared(logger.ticket).config,
                        logger.instrumentation_lib@,
                    ),
                ],
        ),
    decreases records.len(),
{
    let t = logger.ticket;
    let lib = logger.instrumentation_lib@;
    let cfg = regs[0].shared(t).config;
    let f = |rec: LogRecord| seq![emitted_data(rec@, cfg, lib)];
    let e0 = regs[0].shared(t).processors@[k].exported();
    if records.len() == 0 {
        assert(regs.last() == regs[0]);
        assert(records.map_values(f) =~= Seq::<Seq<LogDataView>>::empty());
        assert(e0 + records.map_values(f) =~= e0);
    } else {
        let n = records.len() as int;
        let regs_front = regs.take(n);
        let recs_front = records.take(n - 1);
        assert(regs_front[0] == regs[0]);
        assert forall|j: int|
            0 <= j < recs_front.len() implies emit_observed(
            regs_front[j],
            regs_front[j + 1],
            logger,
            recs_front[j],
        ) by {
            assert(regs_front[j] == regs[j]);
            assert(regs_front[j + 1] == regs[j + 1]);
            assert(recs_front[j] == records[j]);
        }
        lemma_emits_deliver_in_order(regs_front, logger, recs_front, k);
        let pre = regs[n - 1];
        let post = regs[n];
        assert(regs_front.last() == pre);
        assert(regs.last() == post);
        assert(emit_observed(pre, post, logger, records[n - 1]));
        let x = emitted_data(records[n - 1]@, pre.shared(t).config, lib);
        assert(emit_step(pre.shared(t).processors@[k], post.shared(t).processors@[k], x));
        assert(pre.shared(t).config == cfg);
        assert(x == f(records[n - 1])[0]);
        assert(seq![x] =~= f(records[n - 1]));
        assert(post.shared(t).processors@[k].exported() == pre.shared(
            t,
        ).processors@[k].exported().push(f(records[n - 1])));
        assert(pre.shared(t).processors@[k].exported() == e0 + recs_front.map_values(f));
        assert(records.map_values(f) =~= recs_front.map_values(f).push(f(records[n - 1])));
        assert(e0 + recs_front.map_values(f).push(f(records[n - 1])) =~= (e0
            + recs_front.map_values(f)).push(f(records[n - 1])));
    }
}

} // verus!
