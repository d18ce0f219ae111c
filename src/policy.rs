//! The limits installed on one service handle.
//!
//! Each limit that the service accepted narrows the handle further: a request
//! is permitted only where every installed limit permits it, so limits stack
//! and never widen what the handle may do. This check is the library's own
//! narrowing: a request that the installed limits forbid is refused here with
//! `ENOTCAPABLE` and never sent. A permitted request is still sent to the
//! service, which applies its own rules and may refuse it too.
use vstd::prelude::*;

use crate::address::{AddressView, SocketAddress};
use crate::error::{outcome_of, status_result, Error, ENOTCAPABLE};
use crate::limit::{Limit, LimitView, Operation};

verus! {

/// Whether every limit in `limits` permits `op` on `a`.
pub open spec fn all_permit(limits: Seq<LimitView>, op: Operation, a: AddressView) -> bool {
    forall|i: int| 0 <= i < limits.len() ==> (#[trigger] limits[i]).permits(op, a)
}

/// The answer to a request for `op` on `a` under `limits`: go ahead, or
/// `ENOTCAPABLE`.
pub open spec fn check_outcome(limits: Seq<LimitView>, op: Operation, a: AddressView) -> Result<
    (),
    Error,
> {
    if all_permit(limits, op, a) {
        Ok(())
    } else {
        Err(Error::Os(ENOTCAPABLE))
    }
}

/// The limits that a service handle has installed, oldest first. A fresh
/// handle has none and is unrestricted.
#[derive(Debug)]
pub struct Policy {
    limits: Vec<Limit>,
}

impl View for Policy {
    type V = Seq<LimitView>;

    closed spec fn view(&self) -> Seq<LimitView> {
        self.limits@.map_values(|l: Limit| l@)
    }
}

impl Policy {
    /// The policy of a fresh handle: nothing installed, everything permitted.
    pub fn new() -> (r: Policy)
        ensures
            r@ == Seq::<LimitView>::empty(),
    {
        let r = Policy { limits: Vec::new() };
        assert(r@ =~= Seq::<LimitView>::empty());
        r
    }

    /// How many limits are installed.
    pub fn len(&self) -> (r: usize)
        ensures
            r == self@.len(),
    {
        self.limits.len()
    }

    /// Whether the installed limits permit `op` on `addr`.
    pub fn permits(&self, op: Operation, addr: &SocketAddress) -> (r: bool)
        ensures
            r == all_permit(self@, op, addr@),
    {
        let mut i: usize = 0;
        while i < self.limits.len()
            invariant
                i <= self.limits.len(),
                self@.len() == self.limits.len(),
                forall|j: int| 0 <= j < i ==> (#[trigger] self@[j]).permits(op, addr@),
            decreases self.limits.len() - i,
        {
            if !self.limits[i].permits(op, addr) {
                assert(!self@[i as int].permits(op, addr@));
                return false;
            }
            i = i + 1;
        }
        true
    }

    /// Decides a request for `op` on `addr` before it is delegated: `Ok` when
    /// the installed limits permit it, else `ENOTCAPABLE`.
    pub fn check(&self, op: Operation, addr: &SocketAddress) -> (r: Result<(), Error>)
        ensures
            r == check_outcome(self@, op, addr@),
    {
        if self.permits(op, addr) {
            Ok(())
        } else {
            Err(Error::Os(ENOTCAPABLE))
        }
    }

    /// Records the service's answer to installing `limit`: the status code of
    /// the native call and the error number read right after it. The limit
    /// joins the installed ones only when the service accepted it.
    pub fn install(&mut self, limit: Limit, status: i32, errno: i32) -> (r: Result<(), Error>)
        ensures
            r == outcome_of(status, errno),
            r is Ok ==> final(self)@ == old(self)@.push(limit@),
            r is Err ==> final(self)@ == old(self)@,
    {
        let r = status_result(status, errno);
        if r.is_ok() {
            let ghost lv = limit@;
            self.limits.push(limit);
            assert(self@ =~= old(self)@.push(lv));
        }
        r
    }
}

/// Installing a limit never widens what a handle may do: a request permitted
/// after it was permitted before, and it is permitted after exactly when it
/// was permitted before and the new limit permits it too.
pub proof fn lemma_limits_only_narrow(
    installed: Seq<LimitView>,
    limit: LimitView,
    op: Operation,
    a: AddressView,
)
    ensures
        all_permit(installed.push(limit), op, a) == (all_permit(installed, op, a) && limit.permits(
            op,
            a,
        )),
        all_permit(installed.push(limit), op, a) ==> all_permit(installed, op, a),
{
    let after = installed.push(limit);
    if all_permit(after, op, a) {
        assert forall|i: int| 0 <= i < installed.len() implies (#[trigger] installed[i]).permits(
            op,
            a,
        ) by {
            assert(after[i] == installed[i]);
        }
        assert(after[installed.len() as int] == limit);
    }
    if all_permit(installed, op, a) && limit.permits(op, a) {
        assert forall|i: int| 0 <= i < after.len() implies (#[trigger] after[i]).permits(op, a) by {
            if i < installed.len() {
                assert(after[i] == installed[i]);
            }
        }
    }
}

/// Once a limit whose allow-list for `op` holds the single address `a` is
/// installed, a request for `op` on any other address is refused with
/// `ENOTCAPABLE`, and a request on `a` itself is answered as before the
/// limit; on a fresh handle it goes ahead.
pub proof fn lemma_allow_list_admits_only_listed(
    installed: Seq<LimitView>,
    limit: LimitView,
    op: Operation,
    a: AddressView,
    b: AddressView,
)
    requires
        limit.flags.allows(op),
        limit.list(op) == seq![a],
    ensures
        b != a ==> check_outcome(installed.push(limit), op, b) == Err::<(), Error>(
            Error::Os(ENOTCAPABLE),
        ),
        check_outcome(installed.push(limit), op, a) == check_outcome(installed, op, a),
        installed.len() == 0 ==> check_outcome(installed.push(limit), op, a) == Ok::<(), Error>(()),
{
    lemma_limits_only_narrow(installed, limit, op, a);
    lemma_limits_only_narrow(installed, limit, op, b);
    assert(limit.list(op)[0] == a);
    if b != a {
        assert(!limit.list(op).contains(b));
    }
    assert(limit.list(op).contains(a));
}

/// The operation and the address are checked apart: once a limit is
/// installed, a request for `op` on `a` is refused with `ENOTCAPABLE` when the
/// limit's flags leave out `op`, even if `a` is on its allow-list for `op`,
/// and equally when `a` is not on that allow-list, which holds of every
/// address when none was added for `op`.
pub proof fn lemma_operation_checked_apart(
    installed: Seq<LimitView>,
    limit: LimitView,
    op: Operation,
    a: AddressView,
)
    requires
        !limit.flags.allows(op) || !limit.list(op).contains(a),
    ensures
        check_outcome(installed.push(limit), op, a) == Err::<(), Error>(Error::Os(ENOTCAPABLE)),
{
    lemma_limits_only_narrow(installed, limit, op, a);
}

} // verus!
