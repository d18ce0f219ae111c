//! Extension traits for socket types of an asynchronous runtime.
//!
//! The sockets are made as by the blocking adapters, then switched to
//! non-blocking mode and adopted by the runtime. The delegated call itself is
//! local and brief, so it runs inline.
use vstd::prelude::*;

verus! {

/// Adds delegated binding to an unbound TCP socket of the runtime.
pub trait TcpSocketExt<Agent, Addr> {
    /// The error of a failed bind.
    type Error;

    /// Has the service bind this socket to `addr`.
    fn cap_bind(&self, agent: &mut Agent, addr: Addr) -> Result<(), Self::Error>;
}

/// Adds delegated binding to a UDP socket type of the runtime.
pub trait UdpSocketExt<Agent, Addrs>: Sized {
    /// The error of a failed run.
    type Error;

    /// A non-blocking datagram socket bound to the first candidate of `addrs`
    /// that the service could bind.
    fn cap_bind(agent: &mut Agent, addrs: Addrs) -> Result<Self, Self::Error>;
}

/// Adds delegated binding to a local-domain datagram socket type of the
/// runtime.
pub trait UnixDatagramExt<Agent, Path>: Sized {
    /// The error of a failed bind.
    type Error;

    /// A non-blocking datagram socket bound to the filesystem path `path`.
    fn cap_bind(agent: &mut Agent, path: Path) -> Result<Self, Self::Error>;
}

} // verus!
