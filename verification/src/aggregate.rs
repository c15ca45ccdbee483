//! The report aggregator: a pure fold over all outcomes and skipped records
//! into the run's final summary.
//!
//! Aggregation is order-independent in the counts: outcomes may arrive in
//! any completion order, and permuting them changes neither the success nor
//! the failure count, nor the multiset of retained failure entries.

use vstd::prelude::*;
use vstd::seq_lib::group_to_multiset_ensures;
use vstd::seq_lib::lemma_multiset_commutative;
use crate::executor::Outcome;
use crate::job::SkippedRecord;

verus! {

/// One failure retained for the report: the failed job's non-secret
/// identity and the diagnostic text of its execution, kept verbatim.
pub struct FailureEntry {
    pub job_identity: String,
    pub diagnostic: String,
}

/// The run's final accounting: how many jobs succeeded, how many failed,
/// how many records were skipped before scheduling, and every failure's
/// identity and diagnostic in the order the outcomes were received.
pub struct Summary {
    pub success_count: usize,
    pub failure_count: usize,
    pub skipped_count: usize,
    pub failures: Vec<FailureEntry>,
}

/// How many outcomes of `s` report success.
pub open spec fn count_successes(s: Seq<Outcome>) -> nat
    decreases s.len(),
{
    if s.len() == 0 {
        0
    } else {
        count_successes(s.drop_last()) + (if s.last() is Success {
            1nat
        } else {
            0nat
        })
    }
}

/// How many outcomes of `s` report failure.
pub open spec fn count_failures(s: Seq<Outcome>) -> nat
    decreases s.len(),
{
    if s.len() == 0 {
        0
    } else {
        count_failures(s.drop_last()) + (if s.last() is Failure {
            1nat
        } else {
            0nat
        })
    }
}

/// The failure entry one failed outcome is retained as.
pub open spec fn entry_of(o: Outcome) -> FailureEntry {
    FailureEntry { job_identity: o->Failure_job_identity, diagnostic: o->Failure_diagnostic }
}

/// The failure entries of `s`, in the order the outcomes stand in `s`.
pub open spec fn failures_of(s: Seq<Outcome>) -> Seq<FailureEntry>
    decreases s.len(),
{
    if s.len() == 0 {
        Seq::<FailureEntry>::empty()
    } else {
        failures_of(s.drop_last()) + (if s.last() is Failure {
            seq![entry_of(s.last())]
        } else {
            Seq::<FailureEntry>::empty()
        })
    }
}

/// The aggregation functions all distribute over concatenation.
proof fn lemma_aggregate_concat(a: Seq<Outcome>, b: Seq<Outcome>)
    ensures
        count_successes(a + b) == count_successes(a) + count_successes(b),
        count_failures(a + b) == count_failures(a) + count_failures(b),
        failures_of(a + b) == failures_of(a) + failures_of(b),
    decreases b.len(),
{
    if b.len() == 0 {
        assert(a + b =~= a);
        assert(failures_of(a) + failures_of(b) =~= failures_of(a));
    } else {
        lemma_aggregate_concat(a, b.drop_last());
        assert((a + b).drop_last() =~= a + b.drop_last());
        assert((a + b).last() == b.last());
        if b.last() is Failure {
            assert(failures_of(a) + (failures_of(b.drop_last()) + seq![entry_of(b.last())])
                =~= (failures_of(a) + failures_of(b.drop_last())) + seq![entry_of(b.last())]);
        } else {
            assert(failures_of(a) + (failures_of(b.drop_last()) + Seq::<FailureEntry>::empty())
                =~= (failures_of(a) + failures_of(b.drop_last())) + Seq::<FailureEntry>::empty());
        }
    }
}

/// One outcome's contribution to the aggregation.
proof fn lemma_aggregate_singleton(x: Outcome)
    ensures
        x is Success ==> count_successes(seq![x]) == 1 && count_failures(seq![x]) == 0
            && failures_of(seq![x]) == Seq::<FailureEntry>::empty(),
        x is Failure ==> count_successes(seq![x]) == 0 && count_failures(seq![x]) == 1
            && failures_of(seq![x]) == seq![entry_of(x)],
{
    assert(count_successes(Seq::<Outcome>::empty()) == 0);
    assert(count_failures(Seq::<Outcome>::empty()) == 0);
    assert(failures_of(Seq::<Outcome>::empty()) == Seq::<FailureEntry>::empty());
    assert(seq![x].drop_last() =~= Seq::<Outcome>::empty());
    assert(seq![x].last() == x);
    if x is Failure {
        assert(Seq::<FailureEntry>::empty() + seq![entry_of(x)] =~= seq![entry_of(x)]);
    } else {
        assert(Seq::<FailureEntry>::empty() + Seq::<FailureEntry>::empty() =~= Seq::<
            FailureEntry,
        >::empty());
    }
}

/// Law: aggregation is order-independent — two outcome sequences that are
/// permutations of one another (they carry the same multiset of outcomes)
/// yield the same success count, the same failure count, and the same
/// multiset of retained failure entries (only the order among the retained
/// failures may differ).
pub proof fn lemma_aggregation_order_independent(s1: Seq<Outcome>, s2: Seq<Outcome>)
    requires
        s1.to_multiset() == s2.to_multiset(),
    ensures
        count_successes(s1) == count_successes(s2),
        count_failures(s1) == count_failures(s2),
        failures_of(s1).to_multiset() == failures_of(s2).to_multiset(),
    decreases s1.len(),
{
    broadcast use group_to_multiset_ensures;

    if s1.len() == 0 {
        assert(s1.to_multiset().len() == s1.len());
        assert(s2.to_multiset().len() == s2.len());
        assert(s2 =~= s1);
    } else {
        let x = s1.last();
        let d1 = s1.drop_last();
        assert(s1 =~= d1.push(x));
        assert(s1.to_multiset() =~= d1.to_multiset().insert(x));
        assert(s1.to_multiset().count(x) > 0);
        assert(s2.contains(x));
        let j = choose|j: int| 0 <= j < s2.len() && s2[j] == x;
        let d2 = s2.remove(j);
        assert(d2.to_multiset() =~= s2.to_multiset().remove(x));
        assert(d1.to_multiset() =~= d2.to_multiset());
        lemma_aggregation_order_independent(d1, d2);
        // Split s2 around position j and reassemble both s2 and d2 from the
        // same three pieces.
        let front = s2.take(j);
        let back = s2.skip(j + 1);
        assert(s2 =~= (front + seq![x]) + back);
        assert(d2 =~= front + back);
        lemma_aggregate_concat(front + seq![x], back);
        lemma_aggregate_concat(front, seq![x]);
        lemma_aggregate_concat(front, back);
        lemma_aggregate_singleton(x);
        // The counts of s1 and s2 both exceed those of d1 and d2 by x's
        // contribution.
        assert(count_successes(s1) == count_successes(d1) + (if x is Success { 1nat } else { 0nat }));
        assert(count_failures(s1) == count_failures(d1) + (if x is Failure { 1nat } else { 0nat }));
        // The failure-entry multisets likewise differ from d1's and d2's by
        // x's contribution alone.
        assert(failures_of(s1) =~= failures_of(d1) + failures_of(seq![x]));
        assert(failures_of(s2) =~= (failures_of(front) + failures_of(seq![x])) + failures_of(back));
        assert(failures_of(d2) =~= failures_of(front) + failures_of(back));
        lemma_multiset_commutative(failures_of(d1), failures_of(seq![x]));
        lemma_multiset_commutative(failures_of(front) + failures_of(seq![x]), failures_of(back));
        lemma_multiset_commutative(failures_of(front), failures_of(seq![x]));
        lemma_multiset_commutative(failures_of(front), failures_of(back));
        assert(failures_of(s1).to_multiset() =~= failures_of(d1).to_multiset().add(
            failures_of(seq![x]).to_multiset(),
        ));
        assert(failures_of(s2).to_multiset() =~= failures_of(d2).to_multiset().add(
            failures_of(seq![x]).to_multiset(),
        ));
    }
}

/// Folds the whole run into its summary: the skipped count is the number of
/// skipped records, the success and failure counts partition the outcomes,
/// and every failure's identity and diagnostic are retained in the order
/// the outcomes were received.
pub fn aggregate(skipped: &Vec<SkippedRecord>, outcomes: &Vec<Outcome>) -> (summary: Summary)
    ensures
        summary.skipped_count == skipped@.len(),
        summary.success_count == count_successes(outcomes@),
        summary.failure_count == count_failures(outcomes@),
        summary.success_count + summary.failure_count == outcomes@.len(),
        summary.failures@ == failures_of(outcomes@),
{
    let mut success_count: usize = 0;
    let mut failure_count: usize = 0;
    let mut failures: Vec<FailureEntry> = Vec::new();
    let n = outcomes.len();
    let mut i: usize = 0;
    while i < n
        invariant
            0 <= i <= n,
            n == outcomes@.len(),
            success_count == count_successes(outcomes@.take(i as int)),
            failure_count == count_failures(outcomes@.take(i as int)),
            success_count + failure_count == i,
            failures@ == failures_of(outcomes@.take(i as int)),
        decreases n - i,
    {
        proof {
            assert(outcomes@.take(i + 1).drop_last() =~= outcomes@.take(i as int));
            assert(outcomes@.take(i + 1).last() == outcomes@[i as int]);
        }
        match &outcomes[i] {
            Outcome::Success { .. } => {
                success_count = success_count + 1;
            },
            Outcome::Failure { job_identity, diagnostic } => {
                failure_count = failure_count + 1;
                failures.push(
                    FailureEntry {
                        job_identity: job_identity.clone(),
                        diagnostic: diagnostic.clone(),
                    },
                );
            },
        }
        i = i + 1;
    }
    proof {
        assert(outcomes@.take(n as int) =~= outcomes@);
    }
    Summary { success_count, failure_count, skipped_count: skipped.len(), failures }
}

} // verus!
