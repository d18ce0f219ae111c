//! Limits: allow-lists that narrow what a service handle may do.
use vstd::prelude::*;

use crate::address::{AddressView, SocketAddress};

verus! {

/// The native mode bit that permits `connect`.
pub const CAPNET_CONNECT: u64 = 0x10;

/// The native mode bit that permits `bind`.
pub const CAPNET_BIND: u64 = 0x20;

/// An operation that the service performs on the caller's behalf.
#[derive(Clone, Copy, Debug, PartialEq, Eq, Structural)]
pub enum Operation {
    /// bind(2)
    Bind,
    /// connect(2)
    Connect,
}

/// The operations that a limit permits at all, whatever the address.
#[derive(Clone, Copy, Debug, PartialEq, Eq, Structural)]
pub struct LimitFlags {
    /// `bind` is permitted.
    pub bind: bool,
    /// `connect` is permitted.
    pub connect: bool,
}

impl LimitFlags {
    /// Whether the flags permit `op`.
    pub open spec fn allows(self, op: Operation) -> bool {
        match op {
            Operation::Bind => self.bind,
            Operation::Connect => self.connect,
        }
    }

    /// No operation permitted.
    pub fn empty() -> (r: LimitFlags)
        ensures
            forall|op: Operation| !r.allows(op),
    {
        LimitFlags { bind: false, connect: false }
    }

    /// Only `op` permitted.
    pub fn of(op: Operation) -> (r: LimitFlags)
        ensures
            forall|o: Operation| r.allows(o) == (o == op),
    {
        match op {
            Operation::Bind => LimitFlags { bind: true, connect: false },
            Operation::Connect => LimitFlags { bind: false, connect: true },
        }
    }

    /// The operations of either set.
    pub fn union(self, other: LimitFlags) -> (r: LimitFlags)
        ensures
            forall|o: Operation| r.allows(o) == (self.allows(o) || other.allows(o)),
    {
        LimitFlags { bind: self.bind || other.bind, connect: self.connect || other.connect }
    }

    /// Whether `op` is permitted.
    pub fn contains(&self, op: Operation) -> (r: bool)
        ensures
            r == self.allows(op),
    {
        match op {
            Operation::Bind => self.bind,
            Operation::Connect => self.connect,
        }
    }

    /// The native mode word: the bit of each permitted operation.
    pub fn bits(&self) -> (r: u64)
        ensures
            r == (if self.bind {
                CAPNET_BIND
            } else {
                0
            }) + (if self.connect {
                CAPNET_CONNECT
            } else {
                0
            }),
    {
        let b: u64 = if self.bind {
            CAPNET_BIND
        } else {
            0
        };
        let c: u64 = if self.connect {
            CAPNET_CONNECT
        } else {
            0
        };
        b + c
    }

    /// The flags whose bits are set in `bits`; other bits are ignored.
    pub fn from_bits_truncate(bits: u64) -> (r: LimitFlags)
        ensures
            r.bind == (bits & CAPNET_BIND != 0),
            r.connect == (bits & CAPNET_CONNECT != 0),
    {
        LimitFlags { bind: bits & CAPNET_BIND != 0, connect: bits & CAPNET_CONNECT != 0 }
    }
}

/// A limit being assembled: the operations it permits, and for each
/// operation the addresses it is allowed to use. An operation is permitted
/// only on the addresses added for it: with none added, it is permitted on
/// no address.
#[derive(Debug)]
pub struct Limit {
    flags: LimitFlags,
    binds: Vec<SocketAddress>,
    connects: Vec<SocketAddress>,
}

/// What a [`Limit`] permits, as values.
pub struct LimitView {
    /// The operations permitted at all.
    pub flags: LimitFlags,
    /// The addresses that `bind` is restricted to, in the order they were added.
    pub binds: Seq<AddressView>,
    /// The addresses that `connect` is restricted to, in the order they were added.
    pub connects: Seq<AddressView>,
}

/// The views of a list of addresses.
pub open spec fn views_of(v: Seq<SocketAddress>) -> Seq<AddressView> {
    v.map_values(|a: SocketAddress| a@)
}

impl LimitView {
    /// The allow-list of `op`.
    pub open spec fn list(self, op: Operation) -> Seq<AddressView> {
        match op {
            Operation::Bind => self.binds,
            Operation::Connect => self.connects,
        }
    }

    /// Whether the limit permits `op` on `a`: the operation is among the
    /// flags, and `a` is on its allow-list.
    pub open spec fn permits(self, op: Operation, a: AddressView) -> bool {
        &&& self.flags.allows(op)
        &&& self.list(op).contains(a)
    }
}

impl View for Limit {
    type V = LimitView;

    closed spec fn view(&self) -> LimitView {
        LimitView { flags: self.flags, binds: views_of(self.binds@), connects: views_of(self.connects@) }
    }
}

/// Whether `a` is among `list`.
fn list_holds(list: &Vec<SocketAddress>, a: &SocketAddress) -> (r: bool)
    ensures
        r == views_of(list@).contains(a@),
{
    let mut i: usize = 0;
    while i < list.len()
        invariant
            i <= list.len(),
            forall|j: int| 0 <= j < i ==> list@[j]@ != a@,
        decreases list.len() - i,
    {
        if list[i].same_as(a) {
            assert(views_of(list@)[i as int] == a@);
            return true;
        }
        i = i + 1;
    }
    assert forall|j: int| 0 <= j < views_of(list@).len() implies views_of(list@)[j] != a@ by {}
    false
}

impl Limit {
    /// A limit for the operations of `flags`, with no address allowed yet.
    pub fn new(flags: LimitFlags) -> (r: Limit)
        ensures
            r@.flags == flags,
            r@.binds == Seq::<AddressView>::empty(),
            r@.connects == Seq::<AddressView>::empty(),
    {
        let r = Limit { flags, binds: Vec::new(), connects: Vec::new() };
        assert(r@.binds =~= Seq::<AddressView>::empty());
        assert(r@.connects =~= Seq::<AddressView>::empty());
        r
    }

    /// Adds `sa` to the addresses that `bind` is allowed to use. May be
    /// called several times to allow several addresses.
    pub fn bind(&mut self, sa: &SocketAddress) -> (r: &mut Limit)
        ensures
            r@ == (LimitView { binds: old(self)@.binds.push(sa@), ..old(self)@ }),
            *final(self) == *final(r),
    {
        let a = sa.duplicate();
        self.binds.push(a);
        assert(views_of(self.binds@) =~= old(self)@.binds.push(sa@));
        self
    }

    /// Adds `sa` to the addresses that `connect` is allowed to use. May be
    /// called several times to allow several addresses.
    pub fn connect(&mut self, sa: &SocketAddress) -> (r: &mut Limit)
        ensures
            r@ == (LimitView { connects: old(self)@.connects.push(sa@), ..old(self)@ }),
            *final(self) == *final(r),
    {
        let a = sa.duplicate();
        self.connects.push(a);
        assert(views_of(self.connects@) =~= old(self)@.connects.push(sa@));
        self
    }

    /// The operations that the limit permits.
    pub fn flags(&self) -> (r: LimitFlags)
        ensures
            r == self@.flags,
    {
        self.flags
    }

    /// The addresses that `bind` is restricted to, in the order they were added.
    pub fn bind_addresses(&self) -> (r: &Vec<SocketAddress>)
        ensures
            views_of(r@) == self@.binds,
    {
        &self.binds
    }

    /// The addresses that `connect` is restricted to, in the order they were added.
    pub fn connect_addresses(&self) -> (r: &Vec<SocketAddress>)
        ensures
            views_of(r@) == self@.connects,
    {
        &self.connects
    }

    /// Whether the limit permits `op` on `addr`.
    pub fn permits(&self, op: Operation, addr: &SocketAddress) -> (r: bool)
        ensures
            r == self@.permits(op, addr@),
    {
        if !self.flags.contains(op) {
            return false;
        }
        let list = match op {
            Operation::Bind => &self.binds,
            Operation::Connect => &self.connects,
        };
        list_holds(list, addr)
    }
}

} // verus!
