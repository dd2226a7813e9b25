//! Error values surfaced by the emission pipeline and the transport planner.

use vstd::prelude::*;

verus! {

/// A failure while preparing or using the datagram transport.
#[derive(Debug, PartialEq, Eq, Clone, Copy, Structural)]
pub enum TransportError {
    /// Endpoint resolution yielded no usable address.
    Resolution,
    /// The local socket could not be bound.
    Bind,
    /// The bound socket could not be connected to the remote address.
    Connect,
    /// The datagram could not be handed to the operating system.
    Send,
}

/// A failure reported by a processor at flush or shutdown time, or recorded
/// in the process-wide error sink when nobody asked for the operation.
#[derive(Debug, PartialEq)]
pub enum LogError {
    /// An exporter rejected a batch; carries the exporter's message.
    Export(String),
    /// An exporter failed because its transport failed.
    Transport(TransportError),
    /// The processor had already been shut down when it was asked again.
    AlreadyShutdown,
    /// A shutdown attempt was refused because other provider handles
    /// were still alive.
    ShutdownRefused,
}

} // verus!
