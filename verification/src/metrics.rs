use crate::clock::{is_clock_millis, now_millis};
use crate::decimal::{saturate, Decimal};
use crate::models::BenchmarkResult;
use crate::sample::RequestMetrics;
use crate::sorting::{ascending, sort_ascending};
use crate::text::{decimal_text, push_decimal};
use std::collections::HashMap;
use vstd::prelude::*;
use vstd::string::StringExecFns;

verus! {

/// How many of the samples succeeded.
pub open spec fn count_successes(samples: Seq<RequestMetrics>) -> nat
    decreases samples.len(),
{
    if samples.len() == 0 {
        0
    } else {
        count_successes(samples.drop_last()) + if samples.last().success {
            1nat
        } else {
            0nat
        }
    }
}

/// How many of the samples failed.
pub open spec fn count_failures(samples: Seq<RequestMetrics>) -> nat
    decreases samples.len(),
{
    if samples.len() == 0 {
        0
    } else {
        count_failures(samples.drop_last()) + if samples.last().success {
            0nat
        } else {
            1nat
        }
    }
}

/// How many of the samples failed with the given status code.
pub open spec fn count_failures_with_status(samples: Seq<RequestMetrics>, status_code: u16) -> nat
    decreases samples.len(),
{
    if samples.len() == 0 {
        0
    } else {
        count_failures_with_status(samples.drop_last(), status_code) + if !samples.last().success
            && samples.last().status_code == status_code {
            1nat
        } else {
            0nat
        }
    }
}

/// The sum of the samples' response sizes.
pub open spec fn sum_response_sizes(samples: Seq<RequestMetrics>) -> nat
    decreases samples.len(),
{
    if samples.len() == 0 {
        0
    } else {
        sum_response_sizes(samples.drop_last()) + samples.last().response_size as nat
    }
}

/// The sum of the samples' durations in milliseconds.
pub open spec fn sum_durations_ms(samples: Seq<RequestMetrics>) -> nat
    decreases samples.len(),
{
    if samples.len() == 0 {
        0
    } else {
        sum_durations_ms(samples.drop_last()) + samples.last().spec_duration_ms()
    }
}

/// Every sample is either a success or a failure.
pub proof fn lemma_successes_and_failures(samples: Seq<RequestMetrics>)
    ensures
        count_successes(samples) + count_failures(samples) == samples.len(),
    decreases samples.len(),
{
    if samples.len() > 0 {
        lemma_successes_and_failures(samples.drop_last());
    }
}

/// The failures with one status code are among the failures.
pub proof fn lemma_failures_with_status_bound(samples: Seq<RequestMetrics>, status_code: u16)
    ensures
        count_failures_with_status(samples, status_code) <= count_failures(samples),
    decreases samples.len(),
{
    if samples.len() > 0 {
        lemma_failures_with_status_bound(samples.drop_last(), status_code);
    }
}

/// No response is larger than `u64::MAX` bytes, so neither is their mean.
pub proof fn lemma_sum_response_sizes_bound(samples: Seq<RequestMetrics>)
    ensures
        sum_response_sizes(samples) <= samples.len() * 0xffff_ffff_ffff_ffff,
    decreases samples.len(),
{
    if samples.len() > 0 {
        lemma_sum_response_sizes_bound(samples.drop_last());
        assert((samples.len() - 1) * 0xffff_ffff_ffff_ffff + 0xffff_ffff_ffff_ffff == samples.len()
            * 0xffff_ffff_ffff_ffff) by (nonlinear_arith);
    }
}

/// A duration is at most `u64::MAX / 1_000_000` milliseconds.
pub proof fn lemma_sum_durations_bound(samples: Seq<RequestMetrics>)
    ensures
        sum_durations_ms(samples) <= samples.len() * 18_446_744_073_709,
    decreases samples.len(),
{
    if samples.len() > 0 {
        lemma_sum_durations_bound(samples.drop_last());
        assert(samples.last().spec_duration_ms() <= 18_446_744_073_709);
        assert((samples.len() - 1) * 18_446_744_073_709 + 18_446_744_073_709 == samples.len()
            * 18_446_744_073_709) by (nonlinear_arith);
    }
}

/// The samples' durations in milliseconds, in the samples' order.
pub open spec fn durations_ms(samples: Seq<RequestMetrics>) -> Seq<u64> {
    Seq::new(samples.len(), |i: int| samples[i].spec_duration_ms() as u64)
}

/// The position in the ascending durations at which the `percentile`-th
/// percentile of `count` samples stands: `percentile / 100 * count` rounded
/// down, and no further than the last position.
pub open spec fn percentile_index(percentile: Decimal, count: int) -> int {
    let raw = percentile.thousandths as int * count / 100_000;
    if raw >= count {
        count - 1
    } else {
        raw
    }
}

/// Requests per second, in thousandths: zero without samples or where no
/// time has passed.
pub open spec fn requests_per_second_of(count: int, duration_millis: int) -> Decimal {
    if count == 0 || duration_millis <= 0 {
        Decimal { thousandths: 0 }
    } else {
        Decimal { thousandths: saturate(count * 1_000_000 / duration_millis) }
    }
}

/// The mean duration in milliseconds, in thousandths: zero without samples.
pub open spec fn average_response_time_ms_of(samples: Seq<RequestMetrics>) -> Decimal {
    if samples.len() == 0 {
        Decimal { thousandths: 0 }
    } else {
        Decimal { thousandths: saturate(
                sum_durations_ms(samples) as int * 1000 / (samples.len() as int),
            ), }
    }
}

/// The nearest-rank percentile of the durations in milliseconds: zero
/// without samples.
pub open spec fn percentile_response_time_ms_of(
    samples: Seq<RequestMetrics>,
    percentile: Decimal,
) -> Decimal {
    if samples.len() == 0 {
        Decimal { thousandths: 0 }
    } else {
        Decimal {
            thousandths: saturate(
                durations_ms(samples).sort_by(ascending())[percentile_index(
                    percentile,
                    samples.len() as int,
                )] as int * 1000,
            ),
        }
    }
}

/// The share of successful samples in percent: zero without samples.
pub open spec fn success_rate_of(samples: Seq<RequestMetrics>) -> Decimal {
    if samples.len() == 0 {
        Decimal { thousandths: 0 }
    } else {
        Decimal { thousandths: saturate(
                count_successes(samples) as int * 100_000 / (samples.len() as int),
            ), }
    }
}

/// Mebibytes received per second: zero where no time has passed.
pub open spec fn throughput_mb_per_second_of(bytes: int, duration_millis: int) -> Decimal {
    if duration_millis <= 0 {
        Decimal { thousandths: 0 }
    } else {
        Decimal { thousandths: saturate(bytes * 1_000_000 / (1_048_576 * duration_millis)) }
    }
}

/// The count that an error histogram holds for a status code: zero where the
/// code has no entry.
pub open spec fn histogram_count(histogram: Map<u16, u64>, status_code: u16) -> nat {
    if histogram.contains_key(status_code) {
        histogram[status_code] as nat
    } else {
        0
    }
}

/// The histogram holds `failures` for `status_code`, and no entry where there
/// were none.
pub open spec fn histogram_matches(histogram: Map<u16, u64>, status_code: u16, failures: nat) -> bool {
    &&& histogram_count(histogram, status_code) == failures
    &&& histogram.contains_key(status_code) ==> failures > 0
}

/// The name under which the error histogram lists a status code.
pub open spec fn error_key_text(status_code: u16) -> Seq<char> {
    "HTTP_"@ + decimal_text(status_code as nat)
}

/// The name under which the error histogram lists a status code, as in
/// `HTTP_404`; a request that got no response is listed under `HTTP_0`.
pub fn error_key(status_code: u16) -> (key: String)
    ensures
        key@ == error_key_text(status_code),
{
    let mut key = String::from_str("HTTP_");
    push_decimal(&mut key, status_code as u128);
    key
}

/// One line of the error histogram.
#[derive(Debug, Clone)]
pub struct ErrorCount {
    pub key: String,
    pub status_code: u16,
    pub count: u64,
}

/// Whether `entries` is the error histogram of `samples`: one line for each
/// status code with which a sample failed, in ascending order of the codes,
/// with the code's name and the number of such samples.
pub open spec fn is_error_listing(entries: Seq<ErrorCount>, samples: Seq<RequestMetrics>) -> bool {
    &&& forall|k: int|
        0 <= k < entries.len() ==> {
            &&& (#[trigger] entries[k]).key@ == error_key_text(entries[k].status_code)
            &&& entries[k].count == count_failures_with_status(samples, entries[k].status_code)
            &&& entries[k].count > 0
        }
    &&& forall|k: int, l: int|
        0 <= k < l < entries.len() ==> (#[trigger] entries[k]).status_code < (
        #[trigger] entries[l]).status_code
    &&& forall|status_code: u16|
        #[trigger] count_failures_with_status(samples, status_code) > 0 ==> exists|k: int|
            0 <= k < entries.len() && (#[trigger] entries[k]).status_code == status_code
}

/// The samples of one run with their running totals.
///
/// Timestamps are milliseconds since the Unix epoch. Every total is a
/// function of the sample sequence, which `wf` states.
#[derive(Debug, Clone)]
pub struct BenchmarkMetrics {
    framework: String,
    start_time: i64,
    end_time: i64,
    total_requests: u64,
    successful_requests: u64,
    failed_requests: u64,
    total_bytes_received: u128,
    request_metrics: Vec<RequestMetrics>,
    error_counts: HashMap<u16, u64>,
}

impl BenchmarkMetrics {
    /// The samples, in the order in which they were added.
    pub closed spec fn samples(&self) -> Seq<RequestMetrics> {
        self.request_metrics@
    }

    /// The label of the system under test.
    pub closed spec fn label(&self) -> Seq<char> {
        self.framework@
    }

    pub closed spec fn spec_start_time(&self) -> i64 {
        self.start_time
    }

    pub closed spec fn spec_end_time(&self) -> i64 {
        self.end_time
    }

    /// The error histogram: failures counted by status code.
    pub closed spec fn histogram(&self) -> Map<u16, u64> {
        self.error_counts@
    }

    pub closed spec fn spec_total_requests(&self) -> u64 {
        self.total_requests
    }

    pub closed spec fn spec_successful_requests(&self) -> u64 {
        self.successful_requests
    }

    pub closed spec fn spec_failed_requests(&self) -> u64 {
        self.failed_requests
    }

    pub closed spec fn spec_total_bytes_received(&self) -> u128 {
        self.total_bytes_received
    }

    /// The running totals are the ones that the samples give.
    pub open spec fn wf(&self) -> bool {
        &&& self.spec_total_requests() == self.samples().len()
        &&& self.spec_successful_requests() == count_successes(self.samples())
        &&& self.spec_failed_requests() == count_failures(self.samples())
        &&& self.spec_total_bytes_received() == sum_response_sizes(self.samples())
        &&& forall|status_code: u16|
            histogram_matches(
                self.histogram(),
                status_code,
                #[trigger] count_failures_with_status(self.samples(), status_code),
            )
    }

    /// An empty aggregate for `framework` whose start and end are both
    /// `start_time`.
    pub fn with_start_time(framework: String, start_time: i64) -> (metrics: BenchmarkMetrics)
        ensures
            metrics.wf(),
            metrics.samples() == Seq::<RequestMetrics>::empty(),
            metrics.label() == framework@,
            metrics.spec_start_time() == start_time,
            metrics.spec_end_time() == start_time,
            metrics.histogram() == Map::<u16, u64>::empty(),
    {
        BenchmarkMetrics {
            framework,
            start_time,
            end_time: start_time,
            total_requests: 0,
            successful_requests: 0,
            failed_requests: 0,
            total_bytes_received: 0,
            request_metrics: Vec::new(),
            error_counts: HashMap::new(),
        }
    }

    /// Folds one sample into the aggregate: it becomes the last sample, and
    /// the totals and the error histogram follow.
    pub fn add_request(&mut self, metrics: RequestMetrics)
        requires
            old(self).wf(),
        ensures
            final(self).wf(),
            final(self).samples() == old(self).samples().push(metrics),
            final(self).label() == old(self).label(),
            final(self).spec_start_time() == old(self).spec_start_time(),
            final(self).spec_end_time() == old(self).spec_end_time(),
    {
        broadcast use vstd::std_specs::hash::group_hash_axioms;

        let success = metrics.success;
        let status_code = metrics.status_code;
        let response_size = metrics.response_size;
        let ghost before = self.request_metrics@;
        let ghost after = before.push(metrics);
        proof {
            lemma_successes_and_failures(before);
            lemma_failures_with_status_bound(before, status_code);
            lemma_sum_response_sizes_bound(before);
            assert(before.len() * 0xffff_ffff_ffff_ffff <= 0xffff_ffff_ffff_ffff
                * 0xffff_ffff_ffff_ffff) by (nonlinear_arith)
                requires
                    before.len() <= 0xffff_ffff_ffff_ffff,
            ;
            assert(after.drop_last() == before);
            assert(after.last() == metrics);
        }
        self.request_metrics.push(metrics);
        let stored: usize = self.request_metrics.len();
        assert(stored == before.len() + 1);
        self.total_requests += 1;
        self.total_bytes_received += response_size as u128;
        if success {
            self.successful_requests += 1;
            assert forall|code: u16|
                histogram_matches(
                    self.error_counts@,
                    code,
                    #[trigger] count_failures_with_status(after, code),
                ) by {
                assert(histogram_matches(
                    self.error_counts@,
                    code,
                    count_failures_with_status(before, code),
                ));
            }
        } else {
            self.failed_requests += 1;
            let count: u64 = match self.error_counts.get(&status_code) {
                Some(n) => *n,
                None => 0,
            };
            let ghost histogram_before = self.error_counts@;
            assert(histogram_matches(
                histogram_before,
                status_code,
                count_failures_with_status(before, status_code),
            ));
            self.error_counts.insert(status_code, count + 1);
            assert forall|code: u16|
                histogram_matches(
                    self.error_counts@,
                    code,
                    #[trigger] count_failures_with_status(after, code),
                ) by {
                assert(histogram_matches(
                    histogram_before,
                    code,
                    count_failures_with_status(before, code),
                ));
            }
        }
    }

    /// An empty aggregate for `framework` that starts now.
    pub fn new(framework: String) -> (metrics: BenchmarkMetrics)
        ensures
            metrics.wf(),
            metrics.samples() == Seq::<RequestMetrics>::empty(),
            metrics.label() == framework@,
            metrics.spec_end_time() == metrics.spec_start_time(),
            metrics.histogram() == Map::<u16, u64>::empty(),
            is_clock_millis(metrics.spec_start_time()),
    {
        let now = now_millis();
        BenchmarkMetrics::with_start_time(framework, now)
    }

    /// Folds every sample of `batch` into the aggregate, in order.
    pub fn add_requests(&mut self, batch: Vec<RequestMetrics>)
        requires
            old(self).wf(),
        ensures
            final(self).wf(),
            final(self).samples() == old(self).samples() + batch@,
            final(self).label() == old(self).label(),
            final(self).spec_start_time() == old(self).spec_start_time(),
            final(self).spec_end_time() == old(self).spec_end_time(),
    {
        let ghost before = self.samples();
        let ghost all = batch@;
        for sample in it: batch.into_iter()
            invariant
                self.wf(),
                it.seq() == all,
                self.samples() == before + all.take(it.index() as int),
                self.label() == old(self).label(),
                self.spec_start_time() == old(self).spec_start_time(),
                self.spec_end_time() == old(self).spec_end_time(),
        {
            assert(all.take(it.index() + 1) == all.take(it.index() as int).push(sample));
            self.add_request(sample);
        }
        assert(all.take(all.len() as int) == all);
    }

    /// Sets the end timestamp to the current time, a reading of the clock.
    pub fn finalize(&mut self)
        requires
            old(self).wf(),
        ensures
            final(self).wf(),
            final(self).samples() == old(self).samples(),
            final(self).label() == old(self).label(),
            final(self).spec_start_time() == old(self).spec_start_time(),
            final(self).histogram() == old(self).histogram(),
            is_clock_millis(final(self).spec_end_time()),
    {
        let now = now_millis();
        self.finalize_at(now);
    }

    /// Sets the end timestamp to `end_time`.
    pub fn finalize_at(&mut self, end_time: i64)
        requires
            old(self).wf(),
        ensures
            final(self).wf(),
            final(self).samples() == old(self).samples(),
            final(self).label() == old(self).label(),
            final(self).spec_start_time() == old(self).spec_start_time(),
            final(self).spec_end_time() == end_time,
            final(self).histogram() == old(self).histogram(),
    {
        self.end_time = end_time;
        assert forall|status_code: u16|
            histogram_matches(
                self.histogram(),
                status_code,
                #[trigger] count_failures_with_status(self.samples(), status_code),
            ) by {
            assert(histogram_matches(
                old(self).histogram(),
                status_code,
                count_failures_with_status(old(self).samples(), status_code),
            ));
        }
    }

    pub fn framework(&self) -> (label: &String)
        ensures
            label@ == self.label(),
    {
        &self.framework
    }

    pub fn start_time(&self) -> (t: i64)
        ensures
            t == self.spec_start_time(),
    {
        self.start_time
    }

    pub fn end_time(&self) -> (t: i64)
        ensures
            t == self.spec_end_time(),
    {
        self.end_time
    }

    pub fn request_metrics(&self) -> (samples: &Vec<RequestMetrics>)
        ensures
            samples@ == self.samples(),
    {
        &self.request_metrics
    }

    pub fn total_requests(&self) -> (n: u64)
        requires
            self.wf(),
        ensures
            n == self.samples().len(),
    {
        self.total_requests
    }

    pub fn successful_requests(&self) -> (n: u64)
        requires
            self.wf(),
        ensures
            n == count_successes(self.samples()),
    {
        self.successful_requests
    }

    pub fn failed_requests(&self) -> (n: u64)
        requires
            self.wf(),
        ensures
            n == count_failures(self.samples()),
    {
        self.failed_requests
    }

    pub fn total_bytes_received(&self) -> (n: u128)
        requires
            self.wf(),
        ensures
            n == sum_response_sizes(self.samples()),
    {
        self.total_bytes_received
    }

    /// How many samples failed with `status_code`.
    pub fn error_count(&self, status_code: u16) -> (n: u64)
        requires
            self.wf(),
        ensures
            n == count_failures_with_status(self.samples(), status_code),
    {
        broadcast use vstd::std_specs::hash::group_hash_axioms;

        assert(histogram_matches(
            self.error_counts@,
            status_code,
            count_failures_with_status(self.samples(), status_code),
        ));
        match self.error_counts.get(&status_code) {
            Some(n) => *n,
            None => 0,
        }
    }

    /// The error histogram, line by line.
    pub fn error_counts(&self) -> (entries: Vec<ErrorCount>)
        requires
            self.wf(),
        ensures
            is_error_listing(entries@, self.samples()),
    {
        let mut entries: Vec<ErrorCount> = Vec::new();
        let mut code: u32 = 0;
        while code <= 0xffff
            invariant
                self.wf(),
                code <= 0x1_0000,
                forall|k: int|
                    0 <= k < entries@.len() ==> {
                        &&& (#[trigger] entries@[k]).key@ == error_key_text(
                            entries@[k].status_code,
                        )
                        &&& entries@[k].count == count_failures_with_status(
                            self.samples(),
                            entries@[k].status_code,
                        )
                        &&& entries@[k].count > 0
                        &&& entries@[k].status_code < code
                    },
                forall|k: int, l: int|
                    0 <= k < l < entries@.len() ==> (#[trigger] entries@[k]).status_code < (
                    #[trigger] entries@[l]).status_code,
                forall|status_code: u16|
                    status_code < code && #[trigger] count_failures_with_status(
                        self.samples(),
                        status_code,
                    ) > 0 ==> exists|k: int|
                        0 <= k < entries@.len() && (#[trigger] entries@[k]).status_code
                            == status_code,
            decreases 0x1_0000 - code,
        {
            let status_code = code as u16;
            let count = self.error_count(status_code);
            let ghost before = entries@;
            if count > 0 {
                entries.push(ErrorCount { key: error_key(status_code), status_code, count });
                assert forall|other: u16|
                    other < code + 1 && #[trigger] count_failures_with_status(
                        self.samples(),
                        other,
                    ) > 0 implies exists|k: int|
                    0 <= k < entries@.len() && (#[trigger] entries@[k]).status_code == other by {
                    if other < code {
                        let k = choose|k: int|
                            0 <= k < before.len() && (#[trigger] before[k]).status_code == other;
                        assert(entries@[k].status_code == other);
                    } else {
                        assert(entries@[entries@.len() - 1].status_code == other);
                    }
                }
            } else {
                assert forall|other: u16|
                    other < code + 1 && #[trigger] count_failures_with_status(
                        self.samples(),
                        other,
                    ) > 0 implies exists|k: int|
                    0 <= k < entries@.len() && (#[trigger] entries@[k]).status_code == other by {
                    let k = choose|k: int|
                        0 <= k < before.len() && (#[trigger] before[k]).status_code == other;
                    assert(entries@[k].status_code == other);
                }
            }
            code = code + 1;
        }
        entries
    }

    /// Milliseconds from start to end.
    pub open spec fn spec_duration_millis(&self) -> int {
        self.spec_end_time() - self.spec_start_time()
    }

    /// Milliseconds from start to end; negative where the end lies before the
    /// start.
    pub fn duration_millis(&self) -> (d: i128)
        ensures
            d == self.spec_duration_millis(),
    {
        self.end_time as i128 - self.start_time as i128
    }

    /// Seconds from start to end: zero where the end lies before the start.
    pub fn duration_seconds(&self) -> (d: Decimal)
        ensures
            d.thousandths == saturate(self.spec_duration_millis()),
    {
        let millis = self.duration_millis();
        if millis <= 0 {
            Decimal::zero()
        } else {
            Decimal::from_thousandths(millis as u64)
        }
    }

    /// Requests per second over the whole run.
    pub fn requests_per_second(&self) -> (rate: Decimal)
        requires
            self.wf(),
        ensures
            rate == requests_per_second_of(
                self.samples().len() as int,
                self.spec_duration_millis(),
            ),
    {
        let millis = self.duration_millis();
        if self.total_requests == 0 || millis <= 0 {
            Decimal::zero()
        } else {
            Decimal::saturating_from_thousandths(
                self.total_requests as u128 * 1_000_000 / (millis as u128),
            )
        }
    }

    /// The mean of the samples' durations in milliseconds.
    pub fn average_response_time_ms(&self) -> (mean: Decimal)
        ensures
            mean == average_response_time_ms_of(self.samples()),
    {
        let count = self.request_metrics.len();
        if count == 0 {
            return Decimal::zero();
        }
        let mut total: u128 = 0;
        let mut i: usize = 0;
        while i < count
            invariant
                count == self.request_metrics@.len(),
                i <= count,
                total == sum_durations_ms(self.request_metrics@.take(i as int)),
                total <= i * 18_446_744_073_709,
            decreases count - i,
        {
            let ms = self.request_metrics[i].duration_ms();
            proof {
                let next = self.request_metrics@.take(i + 1);
                assert(next.drop_last() == self.request_metrics@.take(i as int));
                assert(next.last() == self.request_metrics@[i as int]);
                lemma_sum_durations_bound(next);
                assert(next.len() * 18_446_744_073_709 <= 0xffff_ffff_ffff_ffff
                    * 18_446_744_073_709) by (nonlinear_arith)
                    requires
                        next.len() <= 0xffff_ffff_ffff_ffff,
                ;
            }
            total = total + ms as u128;
            i = i + 1;
        }
        proof {
            assert(self.request_metrics@.take(count as int) == self.request_metrics@);
            assert(count * 18_446_744_073_709 <= 0xffff_ffff_ffff_ffff * 18_446_744_073_709)
                by (nonlinear_arith)
                requires
                    count <= 0xffff_ffff_ffff_ffff,
            ;
        }
        Decimal::saturating_from_thousandths(total * 1000 / (count as u128))
    }

    /// The nearest-rank `percentile`-th percentile of the samples' durations
    /// in milliseconds.
    pub fn percentile_response_time_ms(&self, percentile: Decimal) -> (value: Decimal)
        ensures
            value == percentile_response_time_ms_of(self.samples(), percentile),
    {
        let count = self.request_metrics.len();
        if count == 0 {
            return Decimal::zero();
        }
        let mut durations: Vec<u64> = Vec::new();
        let mut i: usize = 0;
        while i < count
            invariant
                count == self.request_metrics@.len(),
                i <= count,
                durations@ == durations_ms(self.request_metrics@).take(i as int),
            decreases count - i,
        {
            let ms = self.request_metrics[i].duration_ms();
            durations.push(ms);
            assert(durations@ == durations_ms(self.request_metrics@).take(i + 1));
            i = i + 1;
        }
        assert(durations@ == durations_ms(self.request_metrics@));
        sort_ascending(&mut durations);
        proof {
            crate::sorting::lemma_sorted_same_values(durations_ms(self.request_metrics@));
        }
        assert(percentile.thousandths * count <= 0xffff_ffff_ffff_ffff * 0xffff_ffff_ffff_ffff)
            by (nonlinear_arith)
            requires
                percentile.thousandths <= 0xffff_ffff_ffff_ffff,
                count <= 0xffff_ffff_ffff_ffff,
        ;
        let raw: u128 = percentile.thousandths as u128 * (count as u128) / 100_000;
        let index: usize = if raw >= count as u128 {
            count - 1
        } else {
            raw as usize
        };
        Decimal::saturating_from_thousandths(durations[index] as u128 * 1000)
    }

    /// The share of successful requests in percent.
    pub fn success_rate(&self) -> (rate: Decimal)
        requires
            self.wf(),
        ensures
            rate == success_rate_of(self.samples()),
    {
        if self.total_requests == 0 {
            return Decimal::zero();
        }
        Decimal::saturating_from_thousandths(
            self.successful_requests as u128 * 100_000 / (self.total_requests as u128),
        )
    }

    /// Mebibytes received per second over the whole run.
    pub fn throughput_mb_per_second(&self) -> (rate: Decimal)
        requires
            self.wf(),
        ensures
            rate == throughput_mb_per_second_of(
                sum_response_sizes(self.samples()) as int,
                self.spec_duration_millis(),
            ),
    {
        let millis = self.duration_millis();
        if millis <= 0 {
            return Decimal::zero();
        }
        let divisor: u128 = 1_048_576 * (millis as u128);
        let quotient: u128 = self.total_bytes_received / divisor;
        let remainder: u128 = self.total_bytes_received % divisor;
        proof {
            let bytes = self.total_bytes_received as int;
            let d = divisor as int;
            let q = quotient as int;
            let r = remainder as int;
            vstd::arithmetic::div_mod::lemma_fundamental_div_mod(bytes, d);
            assert(bytes * 1_000_000 == r * 1_000_000 + (q * 1_000_000) * d) by (nonlinear_arith)
                requires
                    bytes == d * q + r,
            ;
            vstd::arithmetic::div_mod::lemma_hoist_over_denominator(
                r * 1_000_000,
                q * 1_000_000,
                d as nat,
            );
            assert(bytes * 1_000_000 / d == r * 1_000_000 / d + q * 1_000_000);
            assert(r * 1_000_000 / d >= 0) by (nonlinear_arith)
                requires
                    r >= 0,
                    d > 0,
            ;
        }
        if quotient > 0xffff_ffff_ffff_ffff {
            return Decimal::from_thousandths(u64::MAX);
        }
        Decimal::saturating_from_thousandths(quotient * 1_000_000 + remainder * 1_000_000 / divisor)
    }

    /// The figures of this run under the name `test_name`, stamped with the
    /// current time. Memory and processor use are not measured and stand at
    /// zero.
    pub fn to_benchmark_result(&self, test_name: String) -> (result: BenchmarkResult)
        requires
            self.wf(),
        ensures
            result.framework@ == self.label(),
            result.test_name == test_name,
            result.requests_per_second == requests_per_second_of(
                self.samples().len() as int,
                self.spec_duration_millis(),
            ),
            result.average_response_time_ms == average_response_time_ms_of(self.samples()),
            result.p95_response_time_ms == percentile_response_time_ms_of(
                self.samples(),
                Decimal { thousandths: 95_000 },
            ),
            result.p99_response_time_ms == percentile_response_time_ms_of(
                self.samples(),
                Decimal { thousandths: 99_000 },
            ),
            result.memory_usage_mb.thousandths == 0,
            result.cpu_usage_percent.thousandths == 0,
            is_clock_millis(result.timestamp),
    {
        let now = now_millis();
        self.to_benchmark_result_at(test_name, now)
    }

    /// The figures of this run under the name `test_name`, stamped with
    /// `timestamp`.
    pub fn to_benchmark_result_at(&self, test_name: String, timestamp: i64) -> (result:
        BenchmarkResult)
        requires
            self.wf(),
        ensures
            result.framework@ == self.label(),
            result.test_name == test_name,
            result.requests_per_second == requests_per_second_of(
                self.samples().len() as int,
                self.spec_duration_millis(),
            ),
            result.average_response_time_ms == average_response_time_ms_of(self.samples()),
            result.p95_response_time_ms == percentile_response_time_ms_of(
                self.samples(),
                Decimal { thousandths: 95_000 },
            ),
            result.p99_response_time_ms == percentile_response_time_ms_of(
                self.samples(),
                Decimal { thousandths: 99_000 },
            ),
            result.memory_usage_mb.thousandths == 0,
            result.cpu_usage_percent.thousandths == 0,
            result.timestamp == timestamp,
    {
        BenchmarkResult {
            framework: self.framework.clone(),
            test_name,
            requests_per_second: self.requests_per_second(),
            average_response_time_ms: self.average_response_time_ms(),
            p95_response_time_ms: self.percentile_response_time_ms(
                Decimal::from_thousandths(95_000),
            ),
            p99_response_time_ms: self.percentile_response_time_ms(
                Decimal::from_thousandths(99_000),
            ),
            memory_usage_mb: Decimal::zero(),
            cpu_usage_percent: Decimal::zero(),
            timestamp,
        }
    }
}

/// The hundredth percentile is the longest duration.
pub proof fn lemma_percentile_100_is_maximum(samples: Seq<RequestMetrics>)
    requires
        samples.len() > 0,
    ensures
        forall|i: int|
            0 <= i < samples.len() ==> (#[trigger] samples[i]).spec_duration_ms() * 1000
                <= percentile_response_time_ms_of(
                samples,
                Decimal { thousandths: 100_000 },
            ).thousandths,
        exists|i: int|
            0 <= i < samples.len() && (#[trigger] samples[i]).spec_duration_ms() * 1000
                == percentile_response_time_ms_of(
                samples,
                Decimal { thousandths: 100_000 },
            ).thousandths,
{
    let durations = durations_ms(samples);
    let sorted = durations.sort_by(ascending());
    let last = samples.len() - 1;
    crate::sorting::lemma_sorted_same_values(durations);
    assert(percentile_index(Decimal { thousandths: 100_000 }, samples.len() as int) == last);
    assert(durations.contains(sorted[last]));
    let k = choose|k: int| 0 <= k < durations.len() && durations[k] == sorted[last];
    assert(samples[k].spec_duration_ms() == sorted[last]);
    assert forall|i: int| 0 <= i < samples.len() implies (#[trigger] samples[i]).spec_duration_ms()
        * 1000 <= sorted[last] * 1000 by {
        assert(sorted.contains(durations[i]));
        let j = choose|j: int| 0 <= j < sorted.len() && sorted[j] == durations[i];
        if j < last {
            assert(ascending()(sorted[j], sorted[last]));
        }
    }
}

/// The zeroth percentile is the shortest duration.
pub proof fn lemma_percentile_0_is_minimum(samples: Seq<RequestMetrics>)
    requires
        samples.len() > 0,
    ensures
        forall|i: int|
            0 <= i < samples.len() ==> (#[trigger] samples[i]).spec_duration_ms() * 1000
                >= percentile_response_time_ms_of(samples, Decimal { thousandths: 0 }).thousandths,
        exists|i: int|
            0 <= i < samples.len() && (#[trigger] samples[i]).spec_duration_ms() * 1000
                == percentile_response_time_ms_of(samples, Decimal { thousandths: 0 }).thousandths,
{
    let durations = durations_ms(samples);
    let sorted = durations.sort_by(ascending());
    crate::sorting::lemma_sorted_same_values(durations);
    assert(percentile_index(Decimal { thousandths: 0 }, samples.len() as int) == 0);
    assert(durations.contains(sorted[0]));
    let k = choose|k: int| 0 <= k < durations.len() && durations[k] == sorted[0];
    assert(samples[k].spec_duration_ms() == sorted[0]);
    assert forall|i: int| 0 <= i < samples.len() implies (#[trigger] samples[i]).spec_duration_ms()
        * 1000 >= sorted[0] * 1000 by {
        assert(sorted.contains(durations[i]));
        let j = choose|j: int| 0 <= j < sorted.len() && sorted[j] == durations[i];
        if 0 < j {
            assert(ascending()(sorted[0], sorted[j]));
        }
    }
}

/// A higher percentile is never a shorter duration.
pub proof fn lemma_percentiles_grow(samples: Seq<RequestMetrics>, lower: Decimal, higher: Decimal)
    requires
        lower.thousandths <= higher.thousandths,
    ensures
        percentile_response_time_ms_of(samples, lower).thousandths
            <= percentile_response_time_ms_of(samples, higher).thousandths,
{
    if samples.len() > 0 {
        let count = samples.len() as int;
        let sorted = durations_ms(samples).sort_by(ascending());
        crate::sorting::lemma_sorted_same_values(durations_ms(samples));
        let low = percentile_index(lower, count);
        let high = percentile_index(higher, count);
        assert(lower.thousandths * count <= higher.thousandths * count) by (nonlinear_arith)
            requires
                lower.thousandths <= higher.thousandths,
                count > 0,
        ;
        assert(lower.thousandths * count / 100_000 <= higher.thousandths * count / 100_000)
            by (nonlinear_arith)
            requires
                lower.thousandths * count <= higher.thousandths * count,
        ;
        assert(0 <= lower.thousandths * count / 100_000) by (nonlinear_arith)
            requires
                0 <= lower.thousandths * count,
        ;
        assert(0 <= lower.thousandths * count) by (nonlinear_arith)
            requires
                count > 0,
        ;
        assert(0 <= low <= high < count);
        if low < high {
            assert(ascending()(sorted[low], sorted[high]));
        }
    }
}

/// Whatever the samples, no more than all of them succeeded: the success
/// rate is at most a hundred percent.
pub proof fn lemma_success_rate_bound(samples: Seq<RequestMetrics>)
    ensures
        success_rate_of(samples).thousandths <= 100_000,
        samples.len() > 0 && count_failures(samples) == 0 ==> success_rate_of(samples).thousandths
            == 100_000,
        samples.len() > 0 && count_successes(samples) == 0 ==> success_rate_of(
            samples,
        ).thousandths == 0,
{
    lemma_successes_and_failures(samples);
    if samples.len() > 0 {
        let successes = count_successes(samples) as int;
        let count = samples.len() as int;
        assert(successes * 100_000 / count <= 100_000) by (nonlinear_arith)
            requires
                0 <= successes <= count,
                count > 0,
        ;
        assert(0 <= successes * 100_000 / count) by (nonlinear_arith)
            requires
                0 <= successes,
                count > 0,
        ;
        if count_failures(samples) == 0 {
            assert(count * 100_000 / count == 100_000) by (nonlinear_arith)
                requires
                    count > 0,
            ;
        }
        if successes == 0 {
            assert(0int * 100_000 / count == 0) by (nonlinear_arith)
                requires
                    count > 0,
            ;
        }
    }
}

/// Without samples every derived figure is zero, whatever the run's length.
pub proof fn lemma_empty_statistics(samples: Seq<RequestMetrics>, duration_millis: int, percentile: Decimal)
    requires
        samples.len() == 0,
    ensures
        requests_per_second_of(samples.len() as int, duration_millis).thousandths == 0,
        average_response_time_ms_of(samples).thousandths == 0,
        percentile_response_time_ms_of(samples, percentile).thousandths == 0,
        success_rate_of(samples).thousandths == 0,
        throughput_mb_per_second_of(sum_response_sizes(samples) as int, duration_millis).thousandths
            == 0,
{
    if duration_millis > 0 {
        assert(0int * 1_000_000 / (1_048_576 * duration_millis) == 0) by (nonlinear_arith)
            requires
                duration_millis > 0,
        ;
    }
}

/// The error histogram holds, under each status code, the failures with
/// that code, and no entry for a code with which no sample failed.
pub proof fn lemma_histogram_follows_samples(metrics: BenchmarkMetrics, status_code: u16)
    requires
        metrics.wf(),
    ensures
        histogram_count(metrics.histogram(), status_code) == count_failures_with_status(
            metrics.samples(),
            status_code,
        ),
        metrics.histogram().contains_key(status_code) <==> count_failures_with_status(
            metrics.samples(),
            status_code,
        ) > 0,
{
    assert(histogram_matches(
        metrics.histogram(),
        status_code,
        count_failures_with_status(metrics.samples(), status_code),
    ));
}

/// Without a failure the error histogram is empty.
pub proof fn lemma_no_failures_no_histogram(metrics: BenchmarkMetrics)
    requires
        metrics.wf(),
        count_failures(metrics.samples()) == 0,
    ensures
        metrics.histogram() == Map::<u16, u64>::empty(),
{
    assert forall|status_code: u16| !metrics.histogram().contains_key(status_code) by {
        lemma_histogram_follows_samples(metrics, status_code);
        lemma_failures_with_status_bound(metrics.samples(), status_code);
    }
    assert(metrics.histogram() =~= Map::<u16, u64>::empty());
}

/// Every request is counted once, as a success or as a failure.
pub proof fn lemma_totals_add_up(metrics: BenchmarkMetrics)
    requires
        metrics.wf(),
    ensures
        metrics.spec_successful_requests() + metrics.spec_failed_requests()
            == metrics.spec_total_requests(),
        metrics.spec_total_requests() == metrics.samples().len(),
{
    lemma_successes_and_failures(metrics.samples());
}

} // verus!
