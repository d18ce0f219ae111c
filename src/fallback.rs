//! Trying resolved candidate addresses in turn.
//!
//! A host name, or a list of addresses, may resolve to several candidates.
//! They are tried in the order the resolver gave, each at most once: the first
//! that succeeds ends the run, and when all fail the run fails with the last
//! error. An empty list fails with [`Error::NoAddresses`], distinct from any
//! failure of an attempt. The attempts themselves are made by the caller,
//! which asks [`Resolution::step`] what to do next and reports each outcome to
//! [`Resolution::record`].
use vstd::prelude::*;

use crate::address::{AddressView, SocketAddress};
use crate::error::Error;
use crate::limit::views_of;

verus! {

/// What to do next in a run over the candidates.
#[derive(Clone, Copy, Debug, PartialEq, Eq, Structural)]
pub enum Step {
    /// Attempt the candidate at this index.
    Attempt(usize),
    /// The attempt at this index succeeded; the run is over.
    Succeeded(usize),
    /// Every candidate failed, or there was none; the run is over.
    Failed(Error),
}

/// The next step of a run over `n` candidates whose attempts so far had
/// `outcomes`, in order.
pub open spec fn next_step(n: nat, outcomes: Seq<Result<(), Error>>) -> Step {
    if outcomes.len() > 0 && outcomes.last() is Ok {
        Step::Succeeded((outcomes.len() - 1) as usize)
    } else if outcomes.len() < n {
        Step::Attempt(outcomes.len() as usize)
    } else if outcomes.len() == 0 {
        Step::Failed(Error::NoAddresses)
    } else {
        Step::Failed(outcomes.last()->Err_0)
    }
}

/// Whether `outcomes` can be the record of a run over `n` candidates: no more
/// attempts than candidates, and none after a success.
pub open spec fn is_run(n: nat, outcomes: Seq<Result<(), Error>>) -> bool {
    &&& outcomes.len() <= n
    &&& forall|i: int| 0 <= i < outcomes.len() - 1 ==> (#[trigger] outcomes[i]) is Err
}

/// A run over candidate addresses: the candidates, and the outcome of each
/// attempt made so far.
#[derive(Debug)]
pub struct Resolution {
    candidates: Vec<SocketAddress>,
    outcomes: Vec<Result<(), Error>>,
}

impl Resolution {
    /// The candidates, in the order they are tried.
    pub closed spec fn candidates(self) -> Seq<AddressView> {
        views_of(self.candidates@)
    }

    /// The outcomes of the attempts made so far, in order.
    pub closed spec fn outcomes(self) -> Seq<Result<(), Error>> {
        self.outcomes@
    }

    /// Whether the run is in a reachable state: its record is a run over its
    /// candidates, whose number leaves room for the next index.
    pub open spec fn wf(self) -> bool {
        &&& is_run(self.candidates().len(), self.outcomes())
        &&& self.candidates().len() < usize::MAX
    }

    /// A run over `candidates` in their order, with no attempt made yet.
    pub fn new(candidates: Vec<SocketAddress>) -> (r: Resolution)
        requires
            candidates.len() < usize::MAX,
        ensures
            r.wf(),
            r.candidates() == views_of(candidates@),
            r.outcomes() == Seq::<Result<(), Error>>::empty(),
    {
        let r = Resolution { candidates, outcomes: Vec::new() };
        assert(r.outcomes() =~= Seq::<Result<(), Error>>::empty());
        r
    }

    /// How many candidates there are.
    pub fn len(&self) -> (r: usize)
        ensures
            r == self.candidates().len(),
    {
        self.candidates.len()
    }

    /// The candidate at index `i`.
    pub fn candidate(&self, i: usize) -> (r: &SocketAddress)
        requires
            i < self.candidates().len(),
        ensures
            r@ == self.candidates()[i as int],
    {
        &self.candidates[i]
    }

    /// What to do next.
    pub fn step(&self) -> (r: Step)
        requires
            self.wf(),
        ensures
            r == next_step(self.candidates().len(), self.outcomes()),
    {
        let k = self.outcomes.len();
        if k > 0 && self.outcomes[k - 1].is_ok() {
            Step::Succeeded(k - 1)
        } else if k < self.candidates.len() {
            Step::Attempt(k)
        } else if k == 0 {
            Step::Failed(Error::NoAddresses)
        } else {
            match self.outcomes[k - 1] {
                Ok(()) => Step::Succeeded(k - 1),
                Err(e) => Step::Failed(e),
            }
        }
    }

    /// Reports the outcome of the attempt that [`Resolution::step`] asked for.
    pub fn record(&mut self, outcome: Result<(), Error>)
        requires
            old(self).wf(),
            next_step(old(self).candidates().len(), old(self).outcomes()) is Attempt,
        ensures
            final(self).wf(),
            final(self).candidates() == old(self).candidates(),
            final(self).outcomes() == old(self).outcomes().push(outcome),
    {
        proof {
            lemma_run_order(self.candidates().len(), self.outcomes());
        }
        self.outcomes.push(outcome);
    }
}

/// A run over no candidates fails at once with [`Error::NoAddresses`], not
/// with the error of any attempt.
pub proof fn lemma_no_candidates_is_invalid_input()
    ensures
        next_step(0, Seq::<Result<(), Error>>::empty()) == Step::Failed(Error::NoAddresses),
{
}

/// How a run goes on from any record of attempts: the candidates are tried in
/// order, the first success ends the run at its own index, a run in which
/// every candidate failed ends with the error of the last one, and nothing is
/// attempted after the run ended.
pub proof fn lemma_run_order(n: nat, outcomes: Seq<Result<(), Error>>)
    requires
        is_run(n, outcomes),
        n < usize::MAX,
    ensures
        next_step(n, outcomes) is Attempt ==> next_step(n, outcomes)->Attempt_0 == outcomes.len(),
        outcomes.len() > 0 && outcomes.last() is Ok ==> next_step(n, outcomes) == Step::Succeeded(
            (outcomes.len() - 1) as usize,
        ),
        outcomes.len() == n && n > 0 && outcomes.last() is Err ==> next_step(n, outcomes)
            == Step::Failed(outcomes[n - 1]->Err_0),
        forall|o: Result<(), Error>|
            next_step(n, outcomes) is Attempt ==> is_run(n, #[trigger] outcomes.push(o)),
{
    assert forall|o: Result<(), Error>| next_step(n, outcomes) is Attempt implies is_run(
        n,
        #[trigger] outcomes.push(o),
    ) by {
        let after = outcomes.push(o);
        assert forall|i: int| 0 <= i < after.len() - 1 implies (#[trigger] after[i]) is Err by {
            assert(after[i] == outcomes[i]);
            if i == outcomes.len() - 1 {
                assert(outcomes.last() is Err);
            }
        }
    }
}

} // verus!
