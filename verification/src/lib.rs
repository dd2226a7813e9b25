//! Core of a telemetry SDK: the path an emitted log record takes from the
//! instrumented call site through a provider-owned chain of processors to an
//! exporter, together with the ownership and shutdown protocol that drains
//! every processor exactly once, and the planning step for a datagram
//! transport that exporters send their payloads over.

pub mod common;
pub mod error;
pub mod export;
pub mod log_emitter;
pub mod processor;
pub mod runtime;
