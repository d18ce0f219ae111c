//! Extension traits for blocking socket types.
//!
//! Each trait adds a `cap_bind` to a socket type of the platform, taking the
//! service handle of type `Agent`. An implementation makes a socket of the
//! matching [`SocketKind`](crate::adapter::SocketKind) for each candidate of
//! a [`Resolution`](crate::fallback::Resolution) in turn, asks the handle's
//! [`Policy`](crate::policy::Policy) before it delegates the bind, and hands
//! back the first socket that the service could bind.
use vstd::prelude::*;

verus! {

/// Adds delegated binding to a listening TCP socket type.
pub trait TcpListenerExt<Agent, Addrs>: Sized {
    /// The error of a failed run.
    type Error;

    /// A listener bound to the first candidate of `addrs` that the service
    /// could bind, listening with the largest backlog.
    fn cap_bind(agent: &mut Agent, addrs: Addrs) -> Result<Self, Self::Error>;
}

/// Adds delegated binding to a UDP socket type.
pub trait UdpSocketExt<Agent, Addrs>: Sized {
    /// The error of a failed run.
    type Error;

    /// A datagram socket bound to the first candidate of `addrs` that the
    /// service could bind.
    fn cap_bind(agent: &mut Agent, addrs: Addrs) -> Result<Self, Self::Error>;
}

/// Adds delegated binding to a local-domain datagram socket type.
pub trait UnixDatagramExt<Agent, Path>: Sized {
    /// The error of a failed bind.
    type Error;

    /// A datagram socket bound to the filesystem path `path`.
    fn cap_bind(agent: &mut Agent, path: Path) -> Result<Self, Self::Error>;
}

/// Adds delegated binding to a listening local-domain socket type.
pub trait UnixListenerExt<Agent, Path>: Sized {
    /// The error of a failed bind.
    type Error;

    /// A listener bound to the filesystem path `path`, listening with the
    /// largest backlog.
    fn cap_bind(agent: &mut Agent, path: Path) -> Result<Self, Self::Error>;
}

} // verus!
