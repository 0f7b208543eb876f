//! Reduction of a batch outcome into per-encoding aggregate statistics.

use vstd::prelude::*;

use crate::sample::BatchOutcome;
use crate::sample::Sample;
use crate::sample::TaskResult;

verus! {

/// How many samples in the sequence carry a measurement.
pub open spec fn success_count_of(s: Seq<Sample>) -> nat
    decreases s.len(),
{
    if s.len() == 0 {
        0
    } else {
        success_count_of(s.drop_last()) + if s.last().is_measurement() {
            1nat
        } else {
            0nat
        }
    }
}

/// How many samples in the sequence are absence markers.
pub open spec fn absence_count_of(s: Seq<Sample>) -> nat
    decreases s.len(),
{
    if s.len() == 0 {
        0
    } else {
        absence_count_of(s.drop_last()) + if s.last().is_measurement() {
            0nat
        } else {
            1nat
        }
    }
}

/// The sum of the measured values; absence markers contribute nothing.
pub open spec fn sum_of(s: Seq<Sample>) -> int
    decreases s.len(),
{
    if s.len() == 0 {
        0
    } else {
        sum_of(s.drop_last()) + if s.last().is_measurement() {
            s.last().value()
        } else {
            0
        }
    }
}

/// The arithmetic mean over the successful samples only, or `None` ("no
/// data") when there is no successful sample at all.
pub open spec fn mean_of(s: Seq<Sample>) -> Option<int> {
    if success_count_of(s) == 0 {
        None
    } else {
        Some(sum_of(s) / success_count_of(s) as int)
    }
}

/// The structured-encoding samples of a result sequence, in order.
pub open spec fn structured_of(rs: Seq<TaskResult>) -> Seq<Sample> {
    rs.map_values(|r: TaskResult| r.structured)
}

/// The markup-encoding samples of a result sequence, in order.
pub open spec fn markup_of(rs: Seq<TaskResult>) -> Seq<Sample> {
    rs.map_values(|r: TaskResult| r.markup)
}

/// Aggregate statistics for one encoding: the count of successful samples,
/// their sum, and their arithmetic mean — `None` meaning "no data", never
/// zero, when no sample succeeded.
pub struct EncodingStats {
    pub success_count: usize,
    pub sum: u128,
    pub mean: Option<u128>,
}

impl EncodingStats {
    /// The statistics that a sample sequence determines.
    pub open spec fn matches(self, s: Seq<Sample>) -> bool {
        &&& self.success_count == success_count_of(s)
        &&& self.sum == sum_of(s)
        &&& (match self.mean {
            Option::None => mean_of(s) is None,
            Option::Some(m) => mean_of(s) == Some(m as int),
        })
    }
}

/// Aggregate statistics for both encodings of one batch.
pub struct AggregateStats {
    pub structured: EncodingStats,
    pub markup: EncodingStats,
}

proof fn lemma_counts_push(s: Seq<Sample>, e: Sample)
    ensures
        success_count_of(s.push(e)) == success_count_of(s) + (if e.is_measurement() {
            1int
        } else {
            0int
        }),
        absence_count_of(s.push(e)) == absence_count_of(s) + (if e.is_measurement() {
            0int
        } else {
            1int
        }),
        sum_of(s.push(e)) == sum_of(s) + (if e.is_measurement() {
            e.value()
        } else {
            0int
        }),
{
    assert(s.push(e).drop_last() =~= s);
    assert(s.push(e).last() == e);
}

/// The running sum can never outgrow one maximal measurement per sample.
proof fn lemma_sum_bounds(s: Seq<Sample>)
    ensures
        success_count_of(s) <= s.len(),
        0 <= sum_of(s) <= s.len() * (u64::MAX as int),
    decreases s.len(),
{
    if s.len() > 0 {
        lemma_sum_bounds(s.drop_last());
        assert(s.len() * (u64::MAX as int) == (s.len() - 1) * (u64::MAX as int) + u64::MAX)
            by (nonlinear_arith);
    }
}

/// Law: in every batch outcome, the successful samples and the absence
/// markers of one encoding partition that encoding's samples, so
/// `success_count + absence_count` equals the sample count.
pub proof fn lemma_success_absence_partition(s: Seq<Sample>)
    ensures
        success_count_of(s) + absence_count_of(s) == s.len(),
    decreases s.len(),
{
    if s.len() > 0 {
        lemma_success_absence_partition(s.drop_last());
    }
}

/// Law: in every batch, for each encoding independently, the successful and
/// the absent samples add up to the batch's task count.
pub proof fn lemma_batch_counts_partition(rs: Seq<TaskResult>)
    ensures
        success_count_of(structured_of(rs)) + absence_count_of(structured_of(rs)) == rs.len(),
        success_count_of(markup_of(rs)) + absence_count_of(markup_of(rs)) == rs.len(),
{
    lemma_success_absence_partition(structured_of(rs));
    lemma_success_absence_partition(markup_of(rs));
}

/// Law: the mean is "no data" exactly when no sample succeeded; otherwise it
/// is the integer quotient of the sum by the success count.
pub proof fn lemma_mean_no_data_iff_no_success(s: Seq<Sample>)
    ensures
        mean_of(s) is None <==> success_count_of(s) == 0,
        success_count_of(s) > 0 ==> mean_of(s) == Some(sum_of(s) / success_count_of(s) as int),
{
}

proof fn lemma_counts_remove(s: Seq<Sample>, i: int)
    requires
        0 <= i < s.len(),
    ensures
        success_count_of(s) == success_count_of(s.remove(i)) + (if s[i].is_measurement() {
            1int
        } else {
            0int
        }),
        sum_of(s) == sum_of(s.remove(i)) + (if s[i].is_measurement() {
            s[i].value()
        } else {
            0int
        }),
    decreases s.len(),
{
    if i == s.len() - 1 {
        assert(s.remove(i) =~= s.drop_last());
    } else {
        assert(s.remove(i).drop_last() =~= s.drop_last().remove(i));
        assert(s.remove(i).last() == s.last());
        lemma_counts_remove(s.drop_last(), i);
    }
}

/// Law: aggregate statistics do not depend on completion order.  Two runs of
/// the same batch against the same deterministic transport may retire their
/// tasks in different orders, but as long as the two outcomes hold the same
/// samples, their counts, sums and means agree.
pub proof fn lemma_stats_permutation_invariant(a: Seq<Sample>, b: Seq<Sample>)
    requires
        a.to_multiset() == b.to_multiset(),
    ensures
        success_count_of(a) == success_count_of(b),
        sum_of(a) == sum_of(b),
        mean_of(a) == mean_of(b),
    decreases a.len(),
{
    a.to_multiset_ensures();
    b.to_multiset_ensures();
    if a.len() == 0 {
        assert(b.len() == 0);
    } else {
        let e = a.last();
        assert(a.contains(e));
        assert(a.to_multiset().count(e) > 0);
        assert(b.contains(e));
        let i = choose|i: int| 0 <= i < b.len() && b[i] == e;
        assert(a.remove(a.len() - 1) =~= a.drop_last());
        assert(a.drop_last().to_multiset() == a.to_multiset().remove(e));
        assert(b.remove(i).to_multiset() == b.to_multiset().remove(e));
        lemma_counts_remove(b, i);
        lemma_stats_permutation_invariant(a.drop_last(), b.remove(i));
    }
}

proof fn lemma_map_values_multiset<A, B>(a: Seq<A>, b: Seq<A>, f: spec_fn(A) -> B)
    requires
        a.to_multiset() == b.to_multiset(),
    ensures
        a.map_values(f).to_multiset() == b.map_values(f).to_multiset(),
    decreases a.len(),
{
    a.to_multiset_ensures();
    b.to_multiset_ensures();
    a.map_values(f).to_multiset_ensures();
    b.map_values(f).to_multiset_ensures();
    if a.len() == 0 {
        assert(b.len() == 0);
        assert(a.map_values(f) =~= b.map_values(f));
    } else {
        let e = a.last();
        assert(a.contains(e));
        assert(a.to_multiset().count(e) > 0);
        assert(b.contains(e));
        let i = choose|i: int| 0 <= i < b.len() && b[i] == e;
        assert(a.remove(a.len() - 1) =~= a.drop_last());
        assert(a.drop_last().to_multiset() == a.to_multiset().remove(e));
        assert(b.remove(i).to_multiset() == b.to_multiset().remove(e));
        lemma_map_values_multiset(a.drop_last(), b.remove(i), f);
        a.drop_last().map_values(f).to_multiset_ensures();
        assert(a.map_values(f) =~= a.drop_last().map_values(f).push(f(e)));
        assert(a.map_values(f).to_multiset() == a.drop_last().map_values(f).to_multiset().insert(
            f(e),
        ));
        assert(b.map_values(f).remove(i) =~= b.remove(i).map_values(f));
        assert(b.map_values(f)[i] == f(e));
        assert(b.remove(i).map_values(f).to_multiset() == b.map_values(f).to_multiset().remove(
            f(e),
        ));
        assert(b.map_values(f).to_multiset().count(f(e)) > 0);
        assert(b.map_values(f).to_multiset().remove(f(e)).insert(f(e)) =~= b.map_values(
            f,
        ).to_multiset());
    }
}

/// Law: a batch's aggregate statistics do not depend on completion order.
/// Two outcomes that hold the same task results, in whatever order the
/// tasks happened to retire, determine the same counts, sums and means for
/// both encodings.
pub proof fn lemma_batch_stats_order_invariant(a: Seq<TaskResult>, b: Seq<TaskResult>)
    requires
        a.to_multiset() == b.to_multiset(),
    ensures
        success_count_of(structured_of(a)) == success_count_of(structured_of(b)),
        sum_of(structured_of(a)) == sum_of(structured_of(b)),
        mean_of(structured_of(a)) == mean_of(structured_of(b)),
        success_count_of(markup_of(a)) == success_count_of(markup_of(b)),
        sum_of(markup_of(a)) == sum_of(markup_of(b)),
        mean_of(markup_of(a)) == mean_of(markup_of(b)),
{
    lemma_map_values_multiset(a, b, |r: TaskResult| r.structured);
    lemma_stats_permutation_invariant(structured_of(a), structured_of(b));
    lemma_map_values_multiset(a, b, |r: TaskResult| r.markup);
    lemma_stats_permutation_invariant(markup_of(a), markup_of(b));
}

/// Reduces one encoding's samples to their aggregate statistics.
pub fn aggregate_encoding(samples: &Vec<Sample>) -> (r: EncodingStats)
    ensures
        r.matches(samples@),
{
    let mut count: usize = 0;
    let mut sum: u128 = 0;
    let mut i: usize = 0;
    while i < samples.len()
        invariant
            i <= samples.len(),
            count == success_count_of(samples@.take(i as int)),
            sum == sum_of(samples@.take(i as int)),
        decreases samples.len() - i,
    {
        proof {
            assert(samples@.take(i + 1int) =~= samples@.take(i as int).push(samples@[i as int]));
            lemma_counts_push(samples@.take(i as int), samples@[i as int]);
            lemma_sum_bounds(samples@.take(i as int));
            assert(samples@.take(i as int).len() * (u64::MAX as int) + u64::MAX
                <= (u64::MAX as int + 1) * (u64::MAX as int + 1)) by (nonlinear_arith)
                requires samples@.take(i as int).len() <= u64::MAX as int;
        }
        match samples[i] {
            Sample::Measurement { nanos } => {
                count = count + 1;
                sum = sum + nanos as u128;
            },
            Sample::Absence => {},
        }
        i = i + 1;
    }
    proof {
        assert(samples@.take(samples@.len() as int) =~= samples@);
    }
    let mean: Option<u128> = if count == 0 {
        Option::None
    } else {
        Option::Some(sum / count as u128)
    };
    EncodingStats { success_count: count, sum, mean }
}

/// Splits a result sequence into its two encodings' sample vectors.
pub fn split_encodings(results: &Vec<TaskResult>) -> (r: (Vec<Sample>, Vec<Sample>))
    ensures
        r.0@ == structured_of(results@),
        r.1@ == markup_of(results@),
{
    let mut structured: Vec<Sample> = Vec::new();
    let mut markup: Vec<Sample> = Vec::new();
    let mut i: usize = 0;
    while i < results.len()
        invariant
            i <= results.len(),
            structured@ == structured_of(results@.take(i as int)),
            markup@ == markup_of(results@.take(i as int)),
        decreases results.len() - i,
    {
        structured.push(results[i].structured);
        markup.push(results[i].markup);
        proof {
            assert(structured_of(results@.take(i + 1int)) =~= structured_of(
                results@.take(i as int),
            ).push(results@[i as int].structured));
            assert(markup_of(results@.take(i + 1int)) =~= markup_of(results@.take(i as int)).push(
                results@[i as int].markup,
            ));
        }
        i = i + 1;
    }
    proof {
        assert(results@.take(results@.len() as int) =~= results@);
    }
    (structured, markup)
}

/// Reduces a whole batch outcome to per-encoding aggregate statistics: the
/// mean over successful samples only, with "no data" instead of a division
/// by a zero count.
pub fn aggregate(outcome: &BatchOutcome) -> (r: AggregateStats)
    ensures
        r.structured.matches(structured_of(outcome.results@)),
        r.markup.matches(markup_of(outcome.results@)),
{
    let (structured, markup) = split_encodings(&outcome.results);
    let s = aggregate_encoding(&structured);
    let m = aggregate_encoding(&markup);
    AggregateStats { structured: s, markup: m }
}

} // verus!
