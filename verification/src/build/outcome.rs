//! The outcome of building many targets.
//!
//! Every target is attempted, whether or not another one failed. What comes
//! back from the attempts is sorted into the targets that were built and
//! those that were not, and the whole is a failure as soon as one target
//! failed. The order in which the attempts ended decides nothing but the
//! order of the two lists.

use crate::error::Error;
use crate::text::{
    contains_text, lemma_listed_names, lemma_occurs_within, lemma_texts_push, list_names, listed,
    occurs_at, texts,
};
use vstd::prelude::*;
use vstd::string::StringExecFns;

verus! {

/// What became of the attempt to build one target. An attempt that could not
/// even begin counts as a failure of its target.
#[derive(Debug, Clone, PartialEq, Eq)]
pub struct TargetResult {
    /// The target, as it was asked for.
    pub target: String,
    /// Whether the target was built.
    pub success: bool,
}

/// A target result as plain values.
pub open spec fn result_views(results: Seq<TargetResult>) -> Seq<(Seq<char>, bool)> {
    Seq::new(results.len(), |i: int| (results[i].target@, results[i].success))
}

/// The targets with the given outcome, in the order of the results.
pub open spec fn targets_with(results: Seq<(Seq<char>, bool)>, success: bool) -> Seq<Seq<char>>
    decreases results.len(),
{
    if results.len() == 0 {
        Seq::empty()
    } else if results.last().1 == success {
        targets_with(results.drop_last(), success).push(results.last().0)
    } else {
        targets_with(results.drop_last(), success)
    }
}

/// The message of a build of many targets that failed: it names every target
/// that failed.
pub open spec fn failure_message(failed: Seq<Seq<char>>) -> Seq<char> {
    "Build failed for targets: "@ + listed(failed)
}

/// The targets that were built and those that were not.
#[derive(Debug, Clone, PartialEq, Eq)]
pub struct BuildOutcome {
    /// The targets that were built.
    pub succeeded: Vec<String>,
    /// The targets that were not.
    pub failed: Vec<String>,
}

impl BuildOutcome {
    /// The outcome of no build at all.
    pub fn new() -> (outcome: BuildOutcome)
        ensures
            outcome.succeeded@.len() == 0,
            outcome.failed@.len() == 0,
    {
        BuildOutcome { succeeded: Vec::new(), failed: Vec::new() }
    }

    /// Adds what became of one target, at the end of the list it belongs to.
    pub fn record(&mut self, target: String, success: bool)
        ensures
            texts(final(self).succeeded@) == if success {
                texts(old(self).succeeded@).push(target@)
            } else {
                texts(old(self).succeeded@)
            },
            texts(final(self).failed@) == if success {
                texts(old(self).failed@)
            } else {
                texts(old(self).failed@).push(target@)
            },
    {
        if success {
            proof {
                lemma_texts_push(self.succeeded@, target);
            }
            self.succeeded.push(target);
        } else {
            proof {
                lemma_texts_push(self.failed@, target);
            }
            self.failed.push(target);
        }
    }

    /// Sorts the results of all the attempts: each target stands in exactly
    /// one of the two lists, in the order in which the results came.
    pub fn collect(results: &Vec<TargetResult>) -> (outcome: BuildOutcome)
        ensures
            texts(outcome.succeeded@) == targets_with(result_views(results@), true),
            texts(outcome.failed@) == targets_with(result_views(results@), false),
    {
        let mut outcome = BuildOutcome::new();
        let ghost all = result_views(results@);
        let mut i: usize = 0;
        proof {
            assert(all.take(0) =~= Seq::<(Seq<char>, bool)>::empty());
            assert(texts(outcome.succeeded@) =~= Seq::<Seq<char>>::empty());
            assert(texts(outcome.failed@) =~= Seq::<Seq<char>>::empty());
        }
        while i < results.len()
            invariant
                i <= results@.len(),
                all == result_views(results@),
                texts(outcome.succeeded@) == targets_with(all.take(i as int), true),
                texts(outcome.failed@) == targets_with(all.take(i as int), false),
            decreases results@.len() - i,
        {
            proof {
                assert(all.take(i + 1).drop_last() == all.take(i as int));
                assert(all.take(i + 1).last() == all[i as int]);
            }
            outcome.record(results[i].target.clone(), results[i].success);
            i = i + 1;
        }
        proof {
            assert(all.take(i as int) == all);
        }
        outcome
    }

    /// Tells whether every target was built.
    pub fn is_success(&self) -> (ok: bool)
        ensures
            ok == (self.failed@.len() == 0),
    {
        self.failed.len() == 0
    }

    /// The result of the whole: success where every target was built, and
    /// otherwise one error that names every target that failed.
    pub fn to_result(&self) -> (r: Result<(), Error>)
        ensures
            r is Ok <==> self.failed@.len() == 0,
            r is Err ==> r->Err_0 is Build && r->Err_0.text() == failure_message(
                texts(self.failed@),
            ),
    {
        if self.failed.len() == 0 {
            Ok(())
        } else {
            Err(
                Error::Build(
                    String::from_str("Build failed for targets: ").concat(
                        list_names(&self.failed).as_str(),
                    ),
                ),
            )
        }
    }
}

/// The message of a failure names every target that failed.
pub proof fn lemma_failure_names_every_target(failed: Seq<Seq<char>>, i: int)
    requires
        0 <= i < failed.len(),
    ensures
        contains_text(failure_message(failed), failed[i]),
{
    lemma_listed_names(failed, i);
    let k = choose|k: int| occurs_at(listed(failed), failed[i], k);
    lemma_occurs_within("Build failed for targets: "@, listed(failed), Seq::empty(), failed[i], k);
    assert("Build failed for targets: "@ + listed(failed) + Seq::<char>::empty() =~= failure_message(
        failed,
    ));
}

/// A target stands among those with an outcome exactly when one of the
/// results is this target with this outcome.
pub proof fn lemma_targets_with(results: Seq<(Seq<char>, bool)>, success: bool, target: Seq<char>)
    ensures
        targets_with(results, success).contains(target) <==> results.contains((target, success)),
        targets_with(results, true).len() + targets_with(results, false).len() == results.len(),
    decreases results.len(),
{
    if results.len() > 0 {
        let init = results.drop_last();
        let last = results.last();
        lemma_targets_with(init, success, target);
        if targets_with(results, success).contains(target) {
            let k = choose|k: int|
                0 <= k < targets_with(results, success).len() && targets_with(results, success)[k]
                    == target;
            if last.1 == success && k == targets_with(init, success).len() {
                assert(results[results.len() - 1] == (target, success));
            } else {
                assert(targets_with(init, success)[k] == target);
                let j = choose|j: int| 0 <= j < init.len() && init[j] == (target, success);
                assert(results[j] == (target, success));
            }
        }
        if results.contains((target, success)) {
            let j = choose|j: int| 0 <= j < results.len() && results[j] == (target, success);
            if j < results.len() - 1 {
                assert(init[j] == (target, success));
                let k = choose|k: int|
                    0 <= k < targets_with(init, success).len() && targets_with(init, success)[k]
                        == target;
                assert(targets_with(results, success)[k] == target);
            } else {
                assert(targets_with(results, success)[targets_with(init, success).len() as int]
                    == target);
            }
        }
    }
}

/// The order of the results decides nothing: two rows that hold the same
/// results, in whatever order, give the same set of targets that were built,
/// the same set of targets that failed, and fail or succeed together.
pub proof fn lemma_outcome_ignores_order(a: Seq<(Seq<char>, bool)>, b: Seq<(Seq<char>, bool)>)
    requires
        a.to_multiset() == b.to_multiset(),
    ensures
        targets_with(a, true).to_set() == targets_with(b, true).to_set(),
        targets_with(a, false).to_set() == targets_with(b, false).to_set(),
        targets_with(a, false).len() == 0 <==> targets_with(b, false).len() == 0,
{
    a.to_multiset_ensures();
    b.to_multiset_ensures();
    assert forall|r: (Seq<char>, bool)| a.contains(r) == b.contains(r) by {
        assert(a.contains(r) <==> a.to_multiset().count(r) > 0);
        assert(b.contains(r) <==> b.to_multiset().count(r) > 0);
    }
    assert forall|t: Seq<char>| #[trigger]
        targets_with(a, true).to_set().contains(t) == targets_with(b, true).to_set().contains(t) by {
        lemma_targets_with(a, true, t);
        lemma_targets_with(b, true, t);
    }
    assert forall|t: Seq<char>| #[trigger]
        targets_with(a, false).to_set().contains(t) == targets_with(b, false).to_set().contains(
            t,
        ) by {
        lemma_targets_with(a, false, t);
        lemma_targets_with(b, false, t);
    }
    assert(targets_with(a, true).to_set() =~= targets_with(b, true).to_set());
    assert(targets_with(a, false).to_set() =~= targets_with(b, false).to_set());
    if targets_with(a, false).len() > 0 {
        let t = targets_with(a, false)[0];
        assert(targets_with(a, false).to_set().contains(t));
        assert(targets_with(b, false).contains(t));
    }
    if targets_with(b, false).len() > 0 {
        let t = targets_with(b, false)[0];
        assert(targets_with(b, false).to_set().contains(t));
        assert(targets_with(a, false).contains(t));
    }
}

} // verus!
