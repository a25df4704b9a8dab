use vstd::prelude::*;

use crate::mode::{settles_alone, Mode};

verus! {

broadcast use vstd::seq_lib::group_seq_properties;

/// The overall outcome of an authentication.
#[derive(Debug, Clone, Copy, PartialEq, Eq)]
pub enum Verdict {
    Success,
    Failure,
}

/// The outcome settled by the results reported so far (in the order they came
/// in), out of `total` sub-services; `None` while it is still open.
///
/// Mode `One` succeeds at the first success and fails once every sub-service
/// has failed; mode `All` fails at the first failure and succeeds once every
/// sub-service has succeeded.
///
/// With no sub-services at all the outcome is settled at once as a failure,
/// in either mode: no sub-service exists that could authenticate the user.
pub open spec fn verdict_of(mode: Mode, total: nat, results: Seq<bool>) -> Option<Verdict> {
    match mode {
        Mode::One => if results.contains(true) {
            Some(Verdict::Success)
        } else if total <= results.len() {
            Some(Verdict::Failure)
        } else {
            None
        },
        Mode::All => if results.contains(false) {
            Some(Verdict::Failure)
        } else if total == 0 {
            Some(Verdict::Failure)
        } else if total <= results.len() {
            Some(Verdict::Success)
        } else {
            None
        },
    }
}

/// Counts the results of the sub-services and says when the outcome is settled.
pub struct Tally {
    mode: Mode,
    total: usize,
    /// The number of results reported so far. Until the outcome is settled
    /// these are all failures (mode `One`) or all successes (mode `All`).
    count: usize,
    verdict: Option<Verdict>,
    results: Ghost<Seq<bool>>,
}

impl Tally {
    /// The combination rule.
    pub closed spec fn mode(&self) -> Mode {
        self.mode
    }

    /// The number of sub-services.
    pub closed spec fn total(&self) -> nat {
        self.total as nat
    }

    /// The results reported so far, in order.
    pub closed spec fn results(&self) -> Seq<bool> {
        self.results@
    }

    #[verifier::type_invariant]
    closed spec fn well_formed(&self) -> bool {
        &&& self.count <= self.total
        &&& self.count == self.results@.len()
        &&& self.verdict == verdict_of(self.mode, self.total as nat, self.results@)
    }

    /// A tally for `total` sub-services combined by `mode`, before any result.
    pub fn new(mode: Mode, total: usize) -> (t: Tally)
        ensures
            t.mode() == mode,
            t.total() == total,
            t.results() == Seq::<bool>::empty(),
    {
        let verdict = if total == 0 {
            Some(Verdict::Failure)
        } else {
            None
        };
        Tally { mode, total, count: 0, verdict, results: Ghost(Seq::empty()) }
    }

    /// The outcome settled so far, if any.
    pub fn verdict(&self) -> (v: Option<Verdict>)
        ensures
            v == verdict_of(self.mode(), self.total(), self.results()),
    {
        proof {
            use_type_invariant(self);
        }
        self.verdict
    }

    /// The number of sub-services that have not reported yet.
    pub fn awaiting(&self) -> (n: usize)
        ensures
            n == self.total() - self.results().len(),
    {
        proof {
            use_type_invariant(self);
        }
        self.total - self.count
    }

    /// Records the result of one more sub-service and returns the outcome as
    /// it now stands. Nothing is recorded after the outcome is settled; while
    /// it is open, some sub-service has yet to report.
    pub fn record(&mut self, ok: bool) -> (v: Option<Verdict>)
        requires
            verdict_of(old(self).mode(), old(self).total(), old(self).results()) is None,
        ensures
            final(self).mode() == old(self).mode(),
            final(self).total() == old(self).total(),
            final(self).results() == old(self).results().push(ok),
            v == verdict_of(final(self).mode(), final(self).total(), final(self).results()),
    {
        proof {
            use_type_invariant(&*self);
        }
        let ghost before = self.results@;
        let count = self.count + 1;
        let verdict = match self.mode {
            Mode::One => if ok {
                Some(Verdict::Success)
            } else if count == self.total {
                Some(Verdict::Failure)
            } else {
                None
            },
            Mode::All => if !ok {
                Some(Verdict::Failure)
            } else if count == self.total {
                Some(Verdict::Success)
            } else {
                None
            },
        };
        proof {
            let after = before.push(ok);
            assert(after.contains(ok)) by {
                assert(after[after.len() - 1] == ok);
            }
            assert(forall|b: bool| after.contains(b) ==> before.contains(b) || b == ok) by {
                assert forall|b: bool| after.contains(b) implies before.contains(b) || b == ok by {
                    let i = choose|i: int| 0 <= i < after.len() && after[i] == b;
                    if i < before.len() {
                        assert(before[i] == b);
                    }
                }
            }
        }
        *self = Tally {
            mode: self.mode,
            total: self.total,
            count,
            verdict,
            results: Ghost(before.push(ok)),
        };
        verdict
    }
}

/// An outcome settled early is final: whatever the sub-services that have
/// not reported yet would still report, the outcome over all results is the
/// same. Deciding at the first decisive result loses nothing.
pub proof fn lemma_early_verdict_is_final(
    mode: Mode,
    total: nat,
    reported: Seq<bool>,
    remaining: Seq<bool>,
)
    requires
        verdict_of(mode, total, reported) is Some,
        reported.len() + remaining.len() <= total,
    ensures
        verdict_of(mode, total, reported + remaining) == verdict_of(mode, total, reported),
{
    let all = reported + remaining;
    assert forall|b: bool| reported.contains(b) implies all.contains(b) by {
        let i = choose|i: int| 0 <= i < reported.len() && reported[i] == b;
        assert(all[i] == b);
    }
    if !reported.contains(true) && !reported.contains(false) {
        assert(reported.len() == 0) by {
            if reported.len() > 0 {
                assert(reported.contains(reported[0]));
            }
        }
    }
    match mode {
        Mode::One => {
            if !reported.contains(true) {
                assert(remaining.len() == 0);
                assert(all =~= reported);
            }
        },
        Mode::All => {
            if !reported.contains(false) {
                assert(remaining.len() == 0);
                assert(all =~= reported);
            }
        },
    }
}

/// Once every sub-service has reported, mode `One` has succeeded exactly
/// when at least one of them succeeded, and mode `All` exactly when all of
/// them succeeded (and there was at least one); either way the outcome is
/// settled. With no sub-services both modes fail.
pub proof fn lemma_complete_verdict(mode: Mode, total: nat, results: Seq<bool>)
    requires
        results.len() == total,
    ensures
        verdict_of(mode, total, results) is Some,
        mode == Mode::One ==> (verdict_of(mode, total, results) == Some(Verdict::Success) <==> exists|
            i: int,
        | 0 <= i < results.len() && results[i]),
        mode == Mode::All ==> (verdict_of(mode, total, results) == Some(Verdict::Success) <==> (
        total > 0 && forall|i: int| 0 <= i < results.len() ==> results[i])),
        total == 0 ==> verdict_of(mode, total, results) == Some(Verdict::Failure),
{
    if total == 0 {
        assert(results =~= Seq::<bool>::empty());
        assert(!results.contains(true) && !results.contains(false));
    }
    if mode == Mode::All {
        if forall|i: int| 0 <= i < results.len() ==> results[i] {
            assert(!results.contains(false));
        } else {
            let i = choose|i: int| 0 <= i < results.len() && !results[i];
            assert(results.contains(false)) by {
                assert(results[i] == false);
            }
        }
    }
}

/// The order in which the sub-services report does not change the outcome:
/// two runs that received the same results, in whatever order, are settled
/// the same way.
pub proof fn lemma_order_does_not_matter(mode: Mode, total: nat, a: Seq<bool>, b: Seq<bool>)
    requires
        a.to_multiset() =~= b.to_multiset(),
    ensures
        verdict_of(mode, total, a) == verdict_of(mode, total, b),
{
    a.to_multiset_ensures();
    b.to_multiset_ensures();
    assert(a.to_multiset().count(true) == b.to_multiset().count(true));
    assert(a.to_multiset().count(false) == b.to_multiset().count(false));
    assert(a.to_multiset().len() == b.to_multiset().len());
    assert(a.contains(true) == b.contains(true));
    assert(a.contains(false) == b.contains(false));
    assert(a.len() == b.len());
}

/// A result settles the outcome before the last sub-service has reported
/// exactly when it settles it on its own (`settles_alone`): a success in mode
/// `One`, a failure in mode `All`; the outcome is then that result.
pub proof fn lemma_signal_iff_settles(mode: Mode, total: nat, results: Seq<bool>, ok: bool)
    requires
        verdict_of(mode, total, results) is None,
        results.len() + 1 < total,
    ensures
        (verdict_of(mode, total, results.push(ok)) is Some) == settles_alone(mode, ok),
        settles_alone(mode, ok) ==> verdict_of(mode, total, results.push(ok)) == Some(
            if ok {
                Verdict::Success
            } else {
                Verdict::Failure
            },
        ),
{
    let after = results.push(ok);
    assert(after[after.len() - 1] == ok);
    assert forall|b: bool| after.contains(b) implies results.contains(b) || b == ok by {
        let i = choose|i: int| 0 <= i < after.len() && after[i] == b;
        if i < results.len() {
            assert(results[i] == b);
        }
    }
}

} // verus!
