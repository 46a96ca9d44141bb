//! Aggregation of probe results into the final report.
//!
//! The dispatcher delivers one boolean outcome per probed node, in no
//! particular order. Aggregation counts the reachable outcomes and derives a
//! truncating percentage; it is order-independent, which is proved below via
//! the multiset view of the result sequence.

use crate::probe::{outcome_reachable_spec, RouteOutcome};
use vstd::arithmetic::div_mod::{lemma_div_is_ordered, lemma_div_multiples_vanish};
use vstd::arithmetic::mul::lemma_mul_inequality;
use vstd::prelude::*;

verus! {

/// A probing run over an empty graph cannot be summarized: the reachability
/// percentage would divide by zero, so the aggregator refuses explicitly
/// instead of crashing.
#[derive(Clone, Copy, Debug, PartialEq, Eq, Structural)]
pub struct DivisionError;

/// The final aggregate summary of a probing run. Derived exactly once, after
/// every submitted node has produced a result.
#[derive(Clone, Copy, Debug, PartialEq, Eq, Structural)]
pub struct Report {
    /// How many nodes the graph snapshot held.
    pub total: usize,
    /// For how many of them a route was found.
    pub reachable: usize,
    /// The payment amount probed for, in the smallest currency unit.
    pub amount: i64,
    /// `reachable * 100 / total`, truncated toward zero.
    pub percentage: u64,
}

/// How many entries of `s` are `true`.
pub open spec fn count_true(s: Seq<bool>) -> nat
    decreases s.len(),
{
    if s.len() == 0 {
        0
    } else {
        count_true(s.drop_last()) + if s.last() {
            1nat
        } else {
            0nat
        }
    }
}

/// How many entries of `s` are `false`.
pub open spec fn count_false(s: Seq<bool>) -> nat
    decreases s.len(),
{
    if s.len() == 0 {
        0
    } else {
        count_false(s.drop_last()) + if s.last() {
            0nat
        } else {
            1nat
        }
    }
}

/// The percentage of `reachable` out of `total`, truncated toward zero.
pub open spec fn percentage_of(reachable: int, total: int) -> int {
    reachable * 100 / total
}

pub proof fn lemma_count_true_le_len(s: Seq<bool>)
    ensures
        count_true(s) <= s.len(),
    decreases s.len(),
{
    if s.len() > 0 {
        lemma_count_true_le_len(s.drop_last());
    }
}

/// Every probe outcome is tallied exactly once: the reachable and
/// unreachable counts partition any result sequence.
pub proof fn lemma_counts_partition(s: Seq<bool>)
    ensures
        count_true(s) + count_false(s) == s.len(),
    decreases s.len(),
{
    if s.len() > 0 {
        lemma_counts_partition(s.drop_last());
    }
}

/// The truncating percentage of a part out of a nonempty whole always lies
/// within 0 and 100.
pub proof fn lemma_percentage_bounds(reachable: int, total: int)
    requires
        0 <= reachable <= total,
        0 < total,
    ensures
        0 <= percentage_of(reachable, total) <= 100,
{
    lemma_mul_inequality(reachable, total, 100);
    assert(0int / total == 0) by (nonlinear_arith)
        requires
            0 < total,
    ;
    lemma_div_is_ordered(0, reachable * 100, total);
    lemma_div_is_ordered(reachable * 100, total * 100, total);
    lemma_div_multiples_vanish(100, total);
}

/// Counting the reachable outcomes sees only the multiset of results, never
/// their arrival order.
pub proof fn lemma_count_true_multiset(s: Seq<bool>)
    ensures
        count_true(s) == s.to_multiset().count(true),
    decreases s.len(),
{
    broadcast use vstd::seq_lib::group_to_multiset_ensures;

    if s.len() == 0 {
        assert(!s.contains(true));
        assert(s.to_multiset().count(true) == 0);
    } else {
        let s0 = s.drop_last();
        lemma_count_true_multiset(s0);
        assert(s =~= s0.push(s.last()));
        assert(s0.push(s.last()).to_multiset() =~= s0.to_multiset().insert(s.last()));
    }
}

/// Aggregation is order-independent: two result sequences that hold the same
/// multiset of outcomes have the same reachable count, and hence the same
/// report.
pub proof fn lemma_count_true_order_independent(a: Seq<bool>, b: Seq<bool>)
    requires
        a.to_multiset() == b.to_multiset(),
    ensures
        count_true(a) == count_true(b),
{
    lemma_count_true_multiset(a);
    lemma_count_true_multiset(b);
}

proof fn lemma_count_true_all(s: Seq<bool>)
    requires
        forall|i: int| 0 <= i < s.len() ==> s[i],
    ensures
        count_true(s) == s.len(),
    decreases s.len(),
{
    if s.len() > 0 {
        lemma_count_true_all(s.drop_last());
    }
}

proof fn lemma_count_true_none(s: Seq<bool>)
    requires
        forall|i: int| 0 <= i < s.len() ==> !s[i],
    ensures
        count_true(s) == 0,
    decreases s.len(),
{
    if s.len() > 0 {
        lemma_count_true_none(s.drop_last());
    }
}

/// The verdicts of a sequence of query outcomes, in order.
pub open spec fn verdicts_of(outcomes: Seq<RouteOutcome>) -> Seq<bool> {
    outcomes.map_values(|o: RouteOutcome| outcome_reachable_spec(o))
}

/// A run whose every query found a route reports exactly 100 percent.
pub proof fn lemma_all_success_full_percentage(outcomes: Seq<RouteOutcome>)
    requires
        outcomes.len() > 0,
        forall|i: int| 0 <= i < outcomes.len() ==> outcomes[i] is RouteFound,
    ensures
        count_true(verdicts_of(outcomes)) == outcomes.len(),
        percentage_of(count_true(verdicts_of(outcomes)) as int, outcomes.len() as int) == 100,
{
    let v = verdicts_of(outcomes);
    assert forall|i: int| 0 <= i < v.len() implies v[i] by {
        assert(outcomes[i] is RouteFound);
    }
    lemma_count_true_all(v);
    lemma_div_multiples_vanish(100, outcomes.len() as int);
}

/// A run whose every query failed reports exactly 0 percent.
pub proof fn lemma_all_failure_zero_percentage(outcomes: Seq<RouteOutcome>)
    requires
        outcomes.len() > 0,
        forall|i: int| 0 <= i < outcomes.len() ==> outcomes[i] is RpcError,
    ensures
        count_true(verdicts_of(outcomes)) == 0,
        percentage_of(count_true(verdicts_of(outcomes)) as int, outcomes.len() as int) == 0,
{
    let v = verdicts_of(outcomes);
    assert forall|i: int| 0 <= i < v.len() implies !v[i] by {
        assert(outcomes[i] is RpcError);
    }
    lemma_count_true_none(v);
    assert(0int * 100 == 0);
    assert(0int / (outcomes.len() as int) == 0) by (nonlinear_arith)
        requires
            outcomes.len() > 0,
    ;
}

/// Counts how many results are `true`.
pub fn count_reachable(results: &Vec<bool>) -> (n: usize)
    ensures
        n == count_true(results@),
{
    let mut n: usize = 0;
    let mut i: usize = 0;
    while i < results.len()
        invariant
            i <= results@.len(),
            n <= i,
            n == count_true(results@.take(i as int)),
        decreases results@.len() - i,
    {
        proof {
            assert(results@.take(i + 1).drop_last() =~= results@.take(i as int));
            assert(results@.take(i + 1).last() == results@[i as int]);
        }
        if results[i] {
            n = n + 1;
        }
        i = i + 1;
    }
    proof {
        assert(results@.take(results@.len() as int) =~= results@);
    }
    n
}

/// Consumes the completed result set and computes the reachability report:
/// the reachable count, and the truncating percentage `reachable * 100 /
/// total`. An empty result set (a zero-node graph) is rejected with
/// `DivisionError` rather than crashing on the division.
pub fn summarize(results: &Vec<bool>, amount: i64) -> (r: Result<Report, DivisionError>)
    ensures
        r is Err <==> results@.len() == 0,
        r matches Ok(rep) ==> {
            &&& rep.total == results@.len()
            &&& rep.reachable == count_true(results@)
            &&& rep.amount == amount
            &&& rep.percentage == percentage_of(count_true(results@) as int, results@.len() as int)
            &&& rep.percentage <= 100
        },
{
    let total = results.len();
    if total == 0 {
        return Err(DivisionError);
    }
    let reachable = count_reachable(results);
    proof {
        lemma_count_true_le_len(results@);
        lemma_percentage_bounds(count_true(results@) as int, total as int);
    }
    let wide: u128 = (reachable as u128) * 100 / (total as u128);
    let percentage: u64 = wide as u64;
    Ok(Report { total, reachable, amount, percentage })
}

} // verus!
