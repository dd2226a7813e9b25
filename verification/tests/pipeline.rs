use otel_sdk::common::{Config, KeyValue, LogRecord};
use otel_sdk::error::LogError;
use otel_sdk::export::InMemoryExporter;
use otel_sdk::log_emitter::{LoggerProvider, ProviderRegistry};
use otel_sdk::processor::{LogProcessor, SimpleLogProcessor, MAX_QUEUE_SIZE};
use otel_sdk::runtime::{AsyncStd, Tokio, TokioCurrentThread};

fn record(body: &str) -> LogRecord {
    LogRecord::new(1, 9, body.to_string(), Vec::new())
}

fn recorded_batches<'a>(
    provider: &LoggerProvider,
    registry: &'a ProviderRegistry<InMemoryExporter>,
    index: usize,
) -> &'a Vec<Vec<otel_sdk::export::LogData>> {
    match &provider.log_processors(registry)[index] {
        LogProcessor::Simple(p) => &p.exporter.batches,
        LogProcessor::Batch(p) => &p.exporter.batches,
    }
}

#[test]
fn logger_keeps_nonempty_name() {
    let mut reg = ProviderRegistry::<InMemoryExporter>::new();
    let provider = LoggerProvider::builder::<InMemoryExporter>().build(&mut reg);
    let logger = provider.logger("my.lib".to_string());
    assert_eq!(logger.instrumentation_library().name, "my.lib");
    provider.release(&mut reg);
}

#[test]
fn logger_empty_name_falls_back_to_default() {
    let mut reg = ProviderRegistry::<InMemoryExporter>::new();
    let provider = LoggerProvider::builder::<InMemoryExporter>().build(&mut reg);
    let logger = provider.logger(String::new());
    assert_eq!(
        logger.instrumentation_library().name,
        "rust.opentelemetry.io/sdk/logemitter"
    );
    provider.release(&mut reg);
}

#[test]
fn versioned_log_emitter_carries_metadata() {
    let mut reg = ProviderRegistry::<InMemoryExporter>::new();
    let provider = LoggerProvider::builder::<InMemoryExporter>().build(&mut reg);
    let logger = provider.versioned_log_emitter(
        "lib".to_string(),
        Some("1.2.3".to_string()),
        Some("https://example.test/schema".to_string()),
        Some(vec![KeyValue::new("tier".to_string(), "front".to_string())]),
    );
    let lib = logger.instrumentation_library();
    assert_eq!(lib.name, "lib");
    assert_eq!(lib.version.as_deref(), Some("1.2.3"));
    assert_eq!(lib.schema_url.as_deref(), Some("https://example.test/schema"));
    let attrs = lib.attributes.as_ref().unwrap();
    assert_eq!(attrs.len(), 1);
    assert_eq!(attrs[0].key, "tier");
    assert_eq!(attrs[0].value, "front");
    provider.release(&mut reg);
}

#[test]
fn emits_deliver_singleton_batches_in_order() {
    let mut reg = ProviderRegistry::<InMemoryExporter>::new();
    let provider = LoggerProvider::builder()
        .with_simple_exporter(InMemoryExporter::new())
        .with_simple_exporter(InMemoryExporter::new())
        .build(&mut reg);
    let logger = provider.logger("order".to_string());
    logger.emit(&mut reg, record("a"));
    logger.emit(&mut reg, record("b"));
    logger.emit(&mut reg, record("c"));
    for k in 0..2 {
        let batches = recorded_batches(&provider, &reg, k);
        assert_eq!(batches.len(), 3);
        let bodies: Vec<&str> = batches
            .iter()
            .map(|b| {
                assert_eq!(b.len(), 1);
                b[0].record.body.as_str()
            })
            .collect();
        assert_eq!(bodies, vec!["a", "b", "c"]);
    }
    provider.release(&mut reg);
}

#[test]
fn emit_after_release_is_a_silent_drop() {
    let mut reg = ProviderRegistry::<InMemoryExporter>::new();
    let provider = LoggerProvider::builder()
        .with_simple_exporter(InMemoryExporter::new())
        .build(&mut reg);
    let logger = provider.logger("late".to_string());
    provider.release(&mut reg);
    assert!(reg.slots[logger.ticket].is_none());
    assert_eq!(reg.sink.len(), 0);
    logger.emit(&mut reg, record("dropped"));
    assert!(reg.slots[logger.ticket].is_none());
    assert_eq!(reg.sink.len(), 0);
    assert!(logger.provider(&mut reg).is_none());
}

#[test]
fn try_shutdown_refused_then_drains_exactly_once() {
    let mut reg = ProviderRegistry::<InMemoryExporter>::new();
    let first = LoggerProvider::builder()
        .with_batch_exporter(InMemoryExporter::new(), Tokio)
        .build(&mut reg);
    let second = first.clone_handle(&mut reg);
    let logger = first.logger("drain".to_string());
    logger.emit(&mut reg, record("queued"));

    assert!(first.try_shutdown(&mut reg).is_none());
    assert_eq!(recorded_batches(&first, &reg, 0).len(), 0);

    second.release(&mut reg);
    assert_eq!(reg.sink.len(), 1);
    assert!(matches!(reg.sink[0], LogError::ShutdownRefused));

    let results = first.try_shutdown(&mut reg).unwrap();
    assert_eq!(results.len(), 1);
    assert!(results[0].is_ok());
    let batches = recorded_batches(&first, &reg, 0);
    assert_eq!(batches.len(), 1);
    assert_eq!(batches[0].len(), 1);
    assert_eq!(batches[0][0].record.body, "queued");

    let again = first.try_shutdown(&mut reg).unwrap();
    assert_eq!(again.len(), 1);
    assert!(matches!(again[0], Err(LogError::AlreadyShutdown)));
    assert_eq!(recorded_batches(&first, &reg, 0).len(), 1);
    first.release(&mut reg);
}

#[test]
fn force_flush_reports_failure_but_flushes_the_rest() {
    let mut reg = ProviderRegistry::<InMemoryExporter>::new();
    let provider = LoggerProvider::builder()
        .with_simple_exporter(InMemoryExporter::failing())
        .with_batch_exporter(InMemoryExporter::new(), AsyncStd)
        .build(&mut reg);
    let logger = provider.logger("isolated".to_string());
    logger.emit(&mut reg, record("x"));
    assert_eq!(recorded_batches(&provider, &reg, 1).len(), 0);
    let results = provider.force_flush(&mut reg);
    assert_eq!(results.len(), 2);
    assert!(matches!(results[0], Err(LogError::Export(_))));
    assert!(results[1].is_ok());
    assert_eq!(recorded_batches(&provider, &reg, 1).len(), 1);
    provider.release(&mut reg);
}

#[test]
fn two_simple_processors_record_and_report() {
    let mut reg = ProviderRegistry::<InMemoryExporter>::new();
    let provider = LoggerProvider::builder()
        .with_simple_exporter(InMemoryExporter::new())
        .with_simple_exporter(InMemoryExporter::failing())
        .build(&mut reg);
    let logger = provider.logger("scenario".to_string());
    logger.emit(&mut reg, record("r1"));
    let recorded = recorded_batches(&provider, &reg, 0);
    assert_eq!(recorded.len(), 1);
    assert_eq!(recorded[0].len(), 1);
    assert_eq!(recorded[0][0].record.body, "r1");
    let results = provider.force_flush(&mut reg);
    assert_eq!(results.len(), 2);
    assert!(results[0].is_ok());
    assert!(matches!(results[1], Err(LogError::Export(_))));
    provider.release(&mut reg);
}

#[test]
fn release_reports_drop_errors_to_the_sink() {
    let mut reg = ProviderRegistry::<InMemoryExporter>::new();
    let provider = LoggerProvider::builder()
        .with_simple_exporter(InMemoryExporter::failing())
        .build(&mut reg);
    let logger = provider.logger("drop".to_string());
    logger.emit(&mut reg, record("lost"));
    provider.release(&mut reg);
    assert_eq!(reg.sink.len(), 1);
    assert!(matches!(reg.sink[0], LogError::Export(_)));
}

#[test]
fn shutdown_with_exclusive_handle_stops_emission() {
    let mut reg = ProviderRegistry::<InMemoryExporter>::new();
    let provider = LoggerProvider::builder()
        .with_simple_exporter(InMemoryExporter::new())
        .build(&mut reg);
    let logger = provider.logger("stop".to_string());
    logger.emit(&mut reg, record("before"));
    let results = provider.shutdown(&mut reg);
    assert_eq!(results.len(), 1);
    assert!(results[0].is_ok());
    logger.emit(&mut reg, record("after"));
    let batches = recorded_batches(&provider, &reg, 0);
    assert_eq!(batches.len(), 1);
    assert_eq!(batches[0][0].record.body, "before");
    provider.release(&mut reg);
}

#[test]
fn batch_processor_defers_export_until_flush() {
    let mut reg = ProviderRegistry::<InMemoryExporter>::new();
    let provider = LoggerProvider::builder()
        .with_batch_exporter(InMemoryExporter::new(), TokioCurrentThread)
        .build(&mut reg);
    let logger = provider.logger("deferred".to_string());
    logger.emit(&mut reg, record("one"));
    logger.emit(&mut reg, record("two"));
    assert_eq!(recorded_batches(&provider, &reg, 0).len(), 0);
    let results = provider.force_flush(&mut reg);
    assert!(results[0].is_ok());
    let batches = recorded_batches(&provider, &reg, 0);
    assert_eq!(batches.len(), 1);
    assert_eq!(batches[0].len(), 2);
    assert_eq!(batches[0][0].record.body, "one");
    assert_eq!(batches[0][1].record.body, "two");
    let empty_flush = provider.force_flush(&mut reg);
    assert!(empty_flush[0].is_ok());
    assert_eq!(recorded_batches(&provider, &reg, 0).len(), 1);
    provider.release(&mut reg);
}

#[test]
fn batch_queue_is_bounded_and_drops_newest() {
    let mut reg = ProviderRegistry::<InMemoryExporter>::new();
    let provider = LoggerProvider::builder()
        .with_batch_exporter(InMemoryExporter::new(), Tokio)
        .build(&mut reg);
    let logger = provider.logger("bounded".to_string());
    for i in 0..(MAX_QUEUE_SIZE + 5) {
        logger.emit(&mut reg, record(&format!("r{}", i)));
    }
    let results = provider.force_flush(&mut reg);
    assert!(results[0].is_ok());
    let batches = recorded_batches(&provider, &reg, 0);
    assert_eq!(batches.len(), 1);
    assert_eq!(batches[0].len(), MAX_QUEUE_SIZE);
    assert_eq!(batches[0][0].record.body, "r0");
    assert_eq!(
        batches[0][MAX_QUEUE_SIZE - 1].record.body,
        format!("r{}", MAX_QUEUE_SIZE - 1)
    );
    provider.release(&mut reg);
}

#[test]
fn emitted_records_carry_resource_and_library() {
    let mut reg = ProviderRegistry::<InMemoryExporter>::new();
    let resource = vec![KeyValue::new("service.name".to_string(), "checkout".to_string())];
    let provider = LoggerProvider::builder()
        .with_simple_exporter(InMemoryExporter::new())
        .with_config(Config::new(resource))
        .build(&mut reg);
    assert_eq!(provider.config(&reg).resource[0].key, "service.name");
    let logger = provider.logger("prov".to_string());
    logger.emit(&mut reg, record("evt"));
    let batches = recorded_batches(&provider, &reg, 0);
    let data = &batches[0][0];
    assert_eq!(data.resource.len(), 1);
    assert_eq!(data.resource[0].value, "checkout");
    assert_eq!(data.instrumentation.name, "prov");
    provider.release(&mut reg);
}

#[test]
fn logger_upgrade_creates_a_counted_handle() {
    let mut reg = ProviderRegistry::<InMemoryExporter>::new();
    let provider = LoggerProvider::builder()
        .with_simple_exporter(InMemoryExporter::new())
        .build(&mut reg);
    let logger = provider.logger("upgrade".to_string());
    let upgraded = logger.provider(&mut reg).unwrap();
    assert!(provider.try_shutdown(&mut reg).is_none());
    upgraded.release(&mut reg);
    assert!(matches!(reg.sink[0], LogError::ShutdownRefused));
    assert!(provider.try_shutdown(&mut reg).is_some());
    provider.release(&mut reg);
}

#[test]
fn builder_appends_processors_in_registration_order() {
    let mut reg = ProviderRegistry::<InMemoryExporter>::new();
    let provider = LoggerProvider::builder()
        .with_log_processor(LogProcessor::Simple(SimpleLogProcessor::new(
            InMemoryExporter::new(),
        )))
        .with_batch_exporter(InMemoryExporter::new(), AsyncStd)
        .build(&mut reg);
    let processors = provider.log_processors(&reg);
    assert_eq!(processors.len(), 2);
    assert!(matches!(processors[0], LogProcessor::Simple(_)));
    assert!(matches!(processors[1], LogProcessor::Batch(_)));
    provider.release(&mut reg);
}

#[test]
fn final_release_reports_each_error_in_registration_order() {
    let mut reg = ProviderRegistry::<InMemoryExporter>::new();
    let provider = LoggerProvider::builder()
        .with_simple_exporter(InMemoryExporter::failing())
        .with_simple_exporter(InMemoryExporter::new())
        .with_simple_exporter(InMemoryExporter::failing())
        .build(&mut reg);
    let logger = provider.logger("sink.order".to_string());
    logger.emit(&mut reg, record("lost"));
    provider.release(&mut reg);
    assert!(reg.slots[logger.ticket].is_none());
    assert_eq!(reg.sink.len(), 2);
    assert!(matches!(reg.sink[0], LogError::Export(_)));
    assert!(matches!(reg.sink[1], LogError::Export(_)));
}
