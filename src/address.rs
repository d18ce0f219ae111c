//! Socket addresses, as plain values.
//!
//! An address is one of an IPv4 endpoint, an IPv6 endpoint or the path of a
//! domain socket. Each is turned field by field into the platform's native
//! layout by the code that makes the native call; no layout is assumed here.
use vstd::prelude::*;

verus! {

/// The address family of a socket or of an address.
#[derive(Clone, Copy, Debug, PartialEq, Eq, Structural)]
pub enum AddressFamily {
    /// IPv4
    Inet,
    /// IPv6
    Inet6,
    /// Local (domain) sockets, addressed by a path
    Unix,
}

/// An IPv4 address and port.
#[derive(Clone, Copy, Debug, PartialEq, Eq, Structural)]
pub struct Ipv4Endpoint {
    /// The address, most significant octet first (`127.0.0.1` is `0x7f000001`).
    pub addr: u32,
    /// The port number.
    pub port: u16,
}

/// An IPv6 address and port, with the flow label and scope of the native
/// structure.
#[derive(Clone, Copy, Debug, PartialEq, Eq, Structural)]
pub struct Ipv6Endpoint {
    /// The address, most significant octet first (`::1` is `1`).
    pub addr: u128,
    /// The port number.
    pub port: u16,
    /// The flow information.
    pub flowinfo: u32,
    /// The scope identifier.
    pub scope_id: u32,
}

/// The address that `a.b.c.d` denotes, most significant octet first.
pub open spec fn ipv4_bits(a: u8, b: u8, c: u8, d: u8) -> int {
    a * 0x100_0000 + b * 0x1_0000 + c * 0x100 + d
}

impl Ipv4Endpoint {
    /// The endpoint `a.b.c.d:port`.
    pub fn new(a: u8, b: u8, c: u8, d: u8, port: u16) -> (r: Ipv4Endpoint)
        ensures
            r.addr == ipv4_bits(a, b, c, d),
            r.port == port,
    {
        let addr: u32 = (a as u32) * 0x100_0000 + (b as u32) * 0x1_0000 + (c as u32) * 0x100
            + (d as u32);
        Ipv4Endpoint { addr, port }
    }
}

/// A socket address: an IPv4 or IPv6 endpoint, or the path of a domain socket.
#[derive(Debug)]
pub enum SocketAddress {
    /// An IPv4 endpoint.
    V4(Ipv4Endpoint),
    /// An IPv6 endpoint.
    V6(Ipv6Endpoint),
    /// A filesystem path, as the bytes of the path.
    Unix(Vec<u8>),
}

/// What a [`SocketAddress`] denotes, with the path as a sequence of bytes.
pub enum AddressView {
    /// An IPv4 endpoint.
    V4(Ipv4Endpoint),
    /// An IPv6 endpoint.
    V6(Ipv6Endpoint),
    /// A filesystem path.
    Unix(Seq<u8>),
}

impl View for SocketAddress {
    type V = AddressView;

    open spec fn view(&self) -> AddressView {
        match self {
            SocketAddress::V4(e) => AddressView::V4(*e),
            SocketAddress::V6(e) => AddressView::V6(*e),
            SocketAddress::Unix(p) => AddressView::Unix(p@),
        }
    }
}

impl AddressView {
    /// The family that an address of this kind belongs to.
    pub open spec fn family(self) -> AddressFamily {
        match self {
            AddressView::V4(_) => AddressFamily::Inet,
            AddressView::V6(_) => AddressFamily::Inet6,
            AddressView::Unix(_) => AddressFamily::Unix,
        }
    }
}

/// Whether two byte strings are equal, compared byte by byte.
fn bytes_equal(a: &Vec<u8>, b: &Vec<u8>) -> (r: bool)
    ensures
        r == (a@ == b@),
{
    if a.len() != b.len() {
        return false;
    }
    let mut i: usize = 0;
    while i < a.len()
        invariant
            a.len() == b.len(),
            i <= a.len(),
            forall|j: int| 0 <= j < i ==> a@[j] == b@[j],
        decreases a.len() - i,
    {
        if a[i] != b[i] {
            return false;
        }
        i = i + 1;
    }
    assert(a@ =~= b@);
    true
}

impl SocketAddress {
    /// The family of the address.
    pub fn family(&self) -> (r: AddressFamily)
        ensures
            r == self@.family(),
    {
        match self {
            SocketAddress::V4(_) => AddressFamily::Inet,
            SocketAddress::V6(_) => AddressFamily::Inet6,
            SocketAddress::Unix(_) => AddressFamily::Unix,
        }
    }

    /// Whether the address is an IPv4 endpoint.
    pub fn is_ipv4(&self) -> (r: bool)
        ensures
            r == (self@ is V4),
    {
        match self {
            SocketAddress::V4(_) => true,
            _ => false,
        }
    }

    /// Whether two addresses denote the same endpoint or path, every field
    /// compared.
    pub fn same_as(&self, other: &SocketAddress) -> (r: bool)
        ensures
            r == (self@ == other@),
    {
        match (self, other) {
            (SocketAddress::V4(a), SocketAddress::V4(b)) => a == b,
            (SocketAddress::V6(a), SocketAddress::V6(b)) => a == b,
            (SocketAddress::Unix(a), SocketAddress::Unix(b)) => bytes_equal(a, b),
            _ => false,
        }
    }

    /// A copy of the address.
    pub fn duplicate(&self) -> (r: SocketAddress)
        ensures
            r@ == self@,
    {
        match self {
            SocketAddress::V4(e) => SocketAddress::V4(*e),
            SocketAddress::V6(e) => SocketAddress::V6(*e),
            SocketAddress::Unix(p) => {
                let mut q: Vec<u8> = Vec::new();
                let mut i: usize = 0;
                while i < p.len()
                    invariant
                        i <= p.len(),
                        q@ == p@.subrange(0, i as int),
                    decreases p.len() - i,
                {
                    q.push(p[i]);
                    i = i + 1;
                    assert(q@ =~= p@.subrange(0, i as int));
                }
                assert(q@ =~= p@);
                SocketAddress::Unix(q)
            },
        }
    }
}

} // verus!
