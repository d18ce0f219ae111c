//! What each socket adapter makes.
//!
//! An adapter creates a fresh socket, has the service bind or connect it, and
//! hands it on as a socket type of the platform. The kinds differ only in the
//! socket they create, in whether they then listen with the largest backlog,
//! and in the addresses they accept.
use vstd::prelude::*;

use crate::address::{AddressFamily, AddressView, SocketAddress};

verus! {

/// The communication semantics of a socket.
#[derive(Clone, Copy, Debug, PartialEq, Eq, Structural)]
pub enum SockType {
    /// A connection-based byte stream.
    Stream,
    /// Connectionless datagrams.
    Datagram,
}

/// The kinds of socket that the adapters produce.
#[derive(Clone, Copy, Debug, PartialEq, Eq, Structural)]
pub enum SocketKind {
    /// A listening TCP socket.
    TcpListener,
    /// A TCP stream, connected or to be connected.
    TcpStream,
    /// A UDP socket.
    UdpSocket,
    /// A datagram socket of the local domain.
    UnixDatagram,
    /// A listening stream socket of the local domain.
    UnixListener,
}

impl SocketKind {
    /// The socket type that a kind is made of.
    pub open spec fn spec_sock_type(self) -> SockType {
        match self {
            SocketKind::TcpListener | SocketKind::TcpStream | SocketKind::UnixListener => {
                SockType::Stream
            },
            SocketKind::UdpSocket | SocketKind::UnixDatagram => SockType::Datagram,
        }
    }

    /// Whether a kind listens once bound.
    pub open spec fn spec_listens(self) -> bool {
        self is TcpListener || self is UnixListener
    }

    /// Whether a kind is addressed by a path rather than an IP endpoint.
    pub open spec fn spec_is_local(self) -> bool {
        self is UnixDatagram || self is UnixListener
    }

    /// Whether a kind can be bound or connected to `a`: the local kinds to a
    /// path, the others to an IP endpoint.
    pub open spec fn spec_accepts(self, a: AddressView) -> bool {
        self.spec_is_local() == (a is Unix)
    }

    /// The socket type of the kind.
    pub fn sock_type(&self) -> (r: SockType)
        ensures
            r == self.spec_sock_type(),
    {
        match self {
            SocketKind::TcpListener | SocketKind::TcpStream | SocketKind::UnixListener => {
                SockType::Stream
            },
            SocketKind::UdpSocket | SocketKind::UnixDatagram => SockType::Datagram,
        }
    }

    /// Whether the kind listens, with the largest backlog, once bound.
    pub fn listens(&self) -> (r: bool)
        ensures
            r == self.spec_listens(),
    {
        match self {
            SocketKind::TcpListener | SocketKind::UnixListener => true,
            _ => false,
        }
    }

    /// Whether the kind can be bound or connected to `addr`.
    pub fn accepts(&self, addr: &SocketAddress) -> (r: bool)
        ensures
            r == self.spec_accepts(addr@),
    {
        let local = match self {
            SocketKind::UnixDatagram | SocketKind::UnixListener => true,
            _ => false,
        };
        let path = match addr {
            SocketAddress::Unix(_) => true,
            _ => false,
        };
        local == path
    }
}

/// The socket that an adapter creates for one candidate address.
#[derive(Clone, Copy, Debug, PartialEq, Eq, Structural)]
pub struct SocketPlan {
    /// The family of the socket, which is the family of the address.
    pub family: AddressFamily,
    /// The socket type of the kind.
    pub sock_type: SockType,
    /// Whether to listen, with the largest backlog, once bound.
    pub listen: bool,
}

/// The socket that an adapter of `kind` creates for `addr`, or `None` where
/// the kind cannot use such an address.
pub fn plan_socket(kind: SocketKind, addr: &SocketAddress) -> (r: Option<SocketPlan>)
    ensures
        r is Some <==> kind.spec_accepts(addr@),
        r matches Some(p) ==> p == (SocketPlan {
            family: addr@.family(),
            sock_type: kind.spec_sock_type(),
            listen: kind.spec_listens(),
        }),
{
    if kind.accepts(addr) {
        Some(SocketPlan { family: addr.family(), sock_type: kind.sock_type(), listen: kind.listens() })
    } else {
        None
    }
}

} // verus!
