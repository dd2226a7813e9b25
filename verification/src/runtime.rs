//! The runtime-transport abstraction: the decision part of creating a
//! connected datagram socket, independent of which concurrency scheduler
//! performs the binding, connecting and sending.
//!
//! Resolution, binding, connecting and sending are operating-system work and
//! live outside this library; what is decided here is everything in between:
//! whether a resolution outcome is usable at all, and which address family
//! the ephemeral local socket must be bound on so that it matches the
//! resolved remote address.

use vstd::prelude::*;

use crate::error::TransportError;

verus! {

/// An address family for a datagram socket.
#[derive(Debug, Clone, Copy, PartialEq, Eq, Structural)]
pub enum AddrFamily {
    V4,
    V6,
}

/// One resolved remote address, as plain values.
#[derive(Debug, Clone, Copy, PartialEq, Eq)]
pub enum RemoteAddr {
    V4 { octets: [u8; 4], port: u16 },
    V6 { segments: [u16; 8], port: u16 },
}

impl RemoteAddr {
    /// The family this address belongs to.
    pub open spec fn spec_family(&self) -> AddrFamily {
        match *self {
            RemoteAddr::V4 { .. } => AddrFamily::V4,
            RemoteAddr::V6 { .. } => AddrFamily::V6,
        }
    }

    /// The family this address belongs to.
    #[verifier::when_used_as_spec(spec_family)]
    pub fn family(&self) -> (f: AddrFamily)
        ensures
            f == self.spec_family(),
    {
        match self {
            RemoteAddr::V4 { .. } => AddrFamily::V4,
            RemoteAddr::V6 { .. } => AddrFamily::V6,
        }
    }
}

/// Everything a scheduler binding needs in order to create a connected
/// datagram socket: bind an ephemeral local socket on `family` (the wildcard
/// address of that family, port zero), then connect it to the resolved
/// remote addresses.
#[derive(Debug)]
pub struct SocketPlan {
    /// Family of the local wildcard bind address, matching the first
    /// resolved remote address.
    pub family: AddrFamily,
    /// The resolved remote addresses, in resolution order.
    pub remotes: Vec<RemoteAddr>,
}

/// Decide how a connected datagram socket is to be created from a
/// resolution outcome: an empty outcome is a resolution error and nothing
/// is bound or connected; otherwise the local bind family is the family of
/// the first resolved address and every resolved address is kept for the
/// connect, in order.
pub fn plan_socket(resolved: Vec<RemoteAddr>) -> (r: Result<SocketPlan, TransportError>)
    ensures
        (r is Err) <==> resolved@.len() == 0,
        resolved@.len() == 0 ==> r == Err::<SocketPlan, TransportError>(TransportError::Resolution),
        resolved@.len() > 0 ==> (r matches Ok(plan) && plan.family == resolved@[0].spec_family()
            && plan.remotes == resolved),
{
    if resolved.len() == 0 {
        return Err(TransportError::Resolution);
    }
    let family = resolved[0].family();
    Ok(SocketPlan { family, remotes: resolved })
}

/// A concurrency scheduler a batch processor or a transport binding can be
/// selected for. The schedulers themselves live outside this library; these
/// tokens only name them.
pub trait LogRuntime: Sized {
}

/// Token for a thread-pool-backed scheduler.
#[derive(Debug, Clone, Copy)]
pub struct Tokio;

/// Token for a single-threaded event-loop scheduler.
#[derive(Debug, Clone, Copy)]
pub struct TokioCurrentThread;

/// Token for a green-thread scheduler.
#[derive(Debug, Clone, Copy)]
pub struct AsyncStd;

impl LogRuntime for Tokio {
}

impl LogRuntime for TokioCurrentThread {
}

impl LogRuntime for AsyncStd {
}

} // verus!
