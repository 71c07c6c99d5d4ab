use crate::decimal::Decimal;
use crate::load_tester::all_samples;
use crate::metrics::{
    average_response_time_ms_of, count_failures, count_failures_with_status, count_successes,
    durations_ms, percentile_response_time_ms_of, success_rate_of, sum_durations_ms,
    sum_response_sizes,
};
use crate::sample::RequestMetrics;
use crate::sorting::{ascending, lemma_ascending_is_total};
use vstd::multiset::Multiset;
use vstd::prelude::*;
use vstd::seq_lib::{lemma_multiset_commutative, lemma_sorted_unique};

verus! {

/// The sum of `weight` over the samples.
pub open spec fn tally(samples: Seq<RequestMetrics>, weight: spec_fn(RequestMetrics) -> nat) -> nat
    decreases samples.len(),
{
    if samples.len() == 0 {
        0
    } else {
        tally(samples.drop_last(), weight) + weight(samples.last())
    }
}

/// Taking one sample out lowers a tally by that sample's weight.
pub proof fn lemma_tally_remove(
    samples: Seq<RequestMetrics>,
    index: int,
    weight: spec_fn(RequestMetrics) -> nat,
)
    requires
        0 <= index < samples.len(),
    ensures
        tally(samples, weight) == tally(samples.remove(index), weight) + weight(samples[index]),
    decreases samples.len(),
{
    if index == samples.len() - 1 {
        assert(samples.remove(index) =~= samples.drop_last());
    } else {
        let rest = samples.remove(index);
        assert(rest.drop_last() =~= samples.drop_last().remove(index));
        assert(rest.last() == samples.last());
        lemma_tally_remove(samples.drop_last(), index, weight);
    }
}

/// Two sequences with the same samples, each as often in one as in the
/// other, have the same tally.
pub proof fn lemma_tally_permutation(
    first: Seq<RequestMetrics>,
    second: Seq<RequestMetrics>,
    weight: spec_fn(RequestMetrics) -> nat,
)
    requires
        first.to_multiset() == second.to_multiset(),
    ensures
        first.len() == second.len(),
        tally(first, weight) == tally(second, weight),
    decreases first.len(),
{
    first.to_multiset_ensures();
    second.to_multiset_ensures();
    if first.len() > 0 {
        let sample = first.last();
        assert(first.contains(sample));
        assert(second.to_multiset().count(sample) > 0);
        assert(second.contains(sample));
        let index = choose|i: int| 0 <= i < second.len() && second[i] == sample;
        assert(first.drop_last() =~= first.remove(first.len() - 1));
        assert(first.drop_last().to_multiset() =~= second.remove(index).to_multiset());
        lemma_tally_permutation(first.drop_last(), second.remove(index), weight);
        lemma_tally_remove(second, index, weight);
    }
}

/// The weight that counts successes.
pub open spec fn success_weight() -> spec_fn(RequestMetrics) -> nat {
    |sample: RequestMetrics|
        if sample.success {
            1nat
        } else {
            0nat
        }
}

/// The weight that counts failures.
pub open spec fn failure_weight() -> spec_fn(RequestMetrics) -> nat {
    |sample: RequestMetrics|
        if sample.success {
            0nat
        } else {
            1nat
        }
}

/// The weight that counts failures with one status code.
pub open spec fn status_weight(status_code: u16) -> spec_fn(RequestMetrics) -> nat {
    |sample: RequestMetrics|
        if !sample.success && sample.status_code == status_code {
            1nat
        } else {
            0nat
        }
}

/// The weight that sums response sizes.
pub open spec fn size_weight() -> spec_fn(RequestMetrics) -> nat {
    |sample: RequestMetrics| sample.response_size as nat
}

/// The weight that sums durations.
pub open spec fn duration_weight() -> spec_fn(RequestMetrics) -> nat {
    |sample: RequestMetrics| sample.spec_duration_ms()
}

/// The weight that counts samples of one duration.
pub open spec fn same_duration_weight(millis: u64) -> spec_fn(RequestMetrics) -> nat {
    |sample: RequestMetrics|
        if sample.spec_duration_ms() as u64 == millis {
            1nat
        } else {
            0nat
        }
}

/// The totals of an aggregate are tallies.
pub proof fn lemma_totals_are_tallies(samples: Seq<RequestMetrics>, status_code: u16)
    ensures
        count_successes(samples) == tally(samples, success_weight()),
        count_failures(samples) == tally(samples, failure_weight()),
        count_failures_with_status(samples, status_code) == tally(
            samples,
            status_weight(status_code),
        ),
        sum_response_sizes(samples) == tally(samples, size_weight()),
        sum_durations_ms(samples) == tally(samples, duration_weight()),
    decreases samples.len(),
{
    if samples.len() > 0 {
        lemma_totals_are_tallies(samples.drop_last(), status_code);
    }
}

/// A duration occurs among the durations as often as samples have it.
pub proof fn lemma_duration_count_is_tally(samples: Seq<RequestMetrics>, millis: u64)
    ensures
        durations_ms(samples).to_multiset().count(millis) == tally(
            samples,
            same_duration_weight(millis),
        ),
    decreases samples.len(),
{
    broadcast use vstd::multiset::group_multiset_axioms;

    let durations = durations_ms(samples);
    if samples.len() == 0 {
        durations.to_multiset_ensures();
        assert(durations.to_multiset().len() == 0);
    } else {
        let shorter = durations_ms(samples.drop_last());
        lemma_duration_count_is_tally(samples.drop_last(), millis);
        shorter.to_multiset_ensures();
        assert(durations =~= shorter.push(samples.last().spec_duration_ms() as u64));
    }
}

/// Two sequences with the same samples have the same durations, each as
/// often in one as in the other.
pub proof fn lemma_durations_permutation(first: Seq<RequestMetrics>, second: Seq<RequestMetrics>)
    requires
        first.to_multiset() == second.to_multiset(),
    ensures
        durations_ms(first).to_multiset() == durations_ms(second).to_multiset(),
        durations_ms(first).sort_by(ascending()) == durations_ms(second).sort_by(ascending()),
{
    let a = durations_ms(first);
    let b = durations_ms(second);
    assert forall|millis: u64| a.to_multiset().count(millis) == b.to_multiset().count(
        millis,
    ) by {
        lemma_duration_count_is_tally(first, millis);
        lemma_duration_count_is_tally(second, millis);
        lemma_tally_permutation(first, second, same_duration_weight(millis));
    }
    assert(a.to_multiset() =~= b.to_multiset());
    lemma_ascending_is_total();
    a.lemma_sort_by_ensures(ascending());
    b.lemma_sort_by_ensures(ascending());
    lemma_sorted_unique(a.sort_by(ascending()), b.sort_by(ascending()), ascending());
}

/// The figures of an aggregate do not depend on the order of its samples:
/// two sequences with the same samples, each as often in one as in the
/// other, give the same totals, the same error histogram, the same mean and
/// the same percentiles.
pub proof fn lemma_statistics_ignore_order(
    first: Seq<RequestMetrics>,
    second: Seq<RequestMetrics>,
    percentile: Decimal,
)
    requires
        first.to_multiset() == second.to_multiset(),
    ensures
        first.len() == second.len(),
        count_successes(first) == count_successes(second),
        count_failures(first) == count_failures(second),
        forall|status_code: u16|
            count_failures_with_status(first, status_code) == #[trigger] count_failures_with_status(
                second,
                status_code,
            ),
        sum_response_sizes(first) == sum_response_sizes(second),
        sum_durations_ms(first) == sum_durations_ms(second),
        average_response_time_ms_of(first) == average_response_time_ms_of(second),
        success_rate_of(first) == success_rate_of(second),
        percentile_response_time_ms_of(first, percentile) == percentile_response_time_ms_of(
            second,
            percentile,
        ),
{
    lemma_totals_are_tallies(first, 0);
    lemma_totals_are_tallies(second, 0);
    lemma_tally_permutation(first, second, success_weight());
    lemma_tally_permutation(first, second, failure_weight());
    lemma_tally_permutation(first, second, size_weight());
    lemma_tally_permutation(first, second, duration_weight());
    assert forall|status_code: u16|
        count_failures_with_status(first, status_code) == #[trigger] count_failures_with_status(
            second,
            status_code,
        ) by {
        lemma_totals_are_tallies(first, status_code);
        lemma_totals_are_tallies(second, status_code);
        lemma_tally_permutation(first, second, status_weight(status_code));
    }
    lemma_durations_permutation(first, second);
}

/// The samples of all workers as a bag, without any order.
pub open spec fn bag_of(workers: Seq<Vec<RequestMetrics>>) -> Multiset<RequestMetrics>
    decreases workers.len(),
{
    if workers.len() == 0 {
        Multiset::empty()
    } else {
        bag_of(workers.drop_last()).add(workers.last()@.to_multiset())
    }
}

/// Merged one after the other, the workers' samples are the samples of the
/// bag.
pub proof fn lemma_all_samples_bag(workers: Seq<Vec<RequestMetrics>>)
    ensures
        all_samples(workers).to_multiset() == bag_of(workers),
    decreases workers.len(),
{
    if workers.len() == 0 {
        all_samples(workers).to_multiset_ensures();
        assert(all_samples(workers).to_multiset() =~= Multiset::empty());
    } else {
        lemma_all_samples_bag(workers.drop_last());
        lemma_multiset_commutative(all_samples(workers.drop_last()), workers.last()@);
    }
}

/// Taking one worker out takes its samples out of the bag.
pub proof fn lemma_bag_remove(workers: Seq<Vec<RequestMetrics>>, index: int)
    requires
        0 <= index < workers.len(),
    ensures
        bag_of(workers) == bag_of(workers.remove(index)).add(workers[index]@.to_multiset()),
    decreases workers.len(),
{
    broadcast use vstd::multiset::group_multiset_axioms;

    if index == workers.len() - 1 {
        assert(workers.remove(index) =~= workers.drop_last());
    } else {
        let rest = workers.remove(index);
        assert(rest.drop_last() =~= workers.drop_last().remove(index));
        assert(rest.last() == workers.last());
        lemma_bag_remove(workers.drop_last(), index);
        assert(bag_of(workers) =~= bag_of(rest).add(workers[index]@.to_multiset()));
    }
}

/// The order in which workers are merged does not change which samples the
/// aggregate holds, nor how often.
pub proof fn lemma_worker_order_is_irrelevant(
    first: Seq<Vec<RequestMetrics>>,
    second: Seq<Vec<RequestMetrics>>,
)
    requires
        first.to_multiset() == second.to_multiset(),
    ensures
        all_samples(first).to_multiset() == all_samples(second).to_multiset(),
{
    lemma_bag_permutation(first, second);
    lemma_all_samples_bag(first);
    lemma_all_samples_bag(second);
}

/// Two lists of the same workers have the same bag of samples.
pub proof fn lemma_bag_permutation(
    first: Seq<Vec<RequestMetrics>>,
    second: Seq<Vec<RequestMetrics>>,
)
    requires
        first.to_multiset() == second.to_multiset(),
    ensures
        bag_of(first) == bag_of(second),
    decreases first.len(),
{
    first.to_multiset_ensures();
    second.to_multiset_ensures();
    if first.len() > 0 {
        let worker = first.last();
        assert(first.contains(worker));
        assert(second.to_multiset().count(worker) > 0);
        assert(second.contains(worker));
        let index = choose|i: int| 0 <= i < second.len() && second[i] == worker;
        assert(first.drop_last() =~= first.remove(first.len() - 1));
        assert(first.drop_last().to_multiset() =~= second.remove(index).to_multiset());
        lemma_bag_permutation(first.drop_last(), second.remove(index));
        lemma_bag_remove(second, index);
    } else {
        assert(second.len() == 0);
    }
}

} // verus!
