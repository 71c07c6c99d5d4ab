use crate::clock::{is_clock_millis, now_millis, timestamp_text};
use crate::decimal::{saturate, Decimal};
use crate::models::BenchmarkResult;
use crate::text::{one_place_text, push_one_place, push_two_places, two_places_text};
use vstd::prelude::*;
use vstd::string::StringExecFns;

verus! {

/// The figures of a result that a comparison averages.
#[derive(Clone, Copy, Debug, PartialEq, Eq, Structural)]
pub enum Metric {
    RequestsPerSecond,
    AverageResponseTime,
    P95ResponseTime,
    P99ResponseTime,
    MemoryUsage,
    CpuUsage,
}

impl Metric {
    /// The figure of `result` that this metric names.
    pub open spec fn spec_of(self, result: BenchmarkResult) -> Decimal {
        match self {
            Metric::RequestsPerSecond => result.requests_per_second,
            Metric::AverageResponseTime => result.average_response_time_ms,
            Metric::P95ResponseTime => result.p95_response_time_ms,
            Metric::P99ResponseTime => result.p99_response_time_ms,
            Metric::MemoryUsage => result.memory_usage_mb,
            Metric::CpuUsage => result.cpu_usage_percent,
        }
    }

    /// The figure of `result` that this metric names.
    pub fn of(self, result: &BenchmarkResult) -> (value: Decimal)
        ensures
            value == self.spec_of(*result),
    {
        match self {
            Metric::RequestsPerSecond => result.requests_per_second,
            Metric::AverageResponseTime => result.average_response_time_ms,
            Metric::P95ResponseTime => result.p95_response_time_ms,
            Metric::P99ResponseTime => result.p99_response_time_ms,
            Metric::MemoryUsage => result.memory_usage_mb,
            Metric::CpuUsage => result.cpu_usage_percent,
        }
    }
}

/// The sum of one metric over the results, in thousandths.
pub open spec fn sum_metric(results: Seq<BenchmarkResult>, metric: Metric) -> int
    decreases results.len(),
{
    if results.len() == 0 {
        0
    } else {
        sum_metric(results.drop_last(), metric) + metric.spec_of(results.last()).thousandths
    }
}

/// The arithmetic mean of one metric over the results, rounded down to a
/// thousandth. It is meant for a list that is not empty.
pub open spec fn mean_metric(results: Seq<BenchmarkResult>, metric: Metric) -> Decimal {
    Decimal { thousandths: (sum_metric(results, metric) / (results.len() as int)) as u64 }
}

/// A sum of `u64` values is bounded by their number.
pub proof fn lemma_sum_metric_bound(results: Seq<BenchmarkResult>, metric: Metric)
    ensures
        0 <= sum_metric(results, metric) <= results.len() * 0xffff_ffff_ffff_ffff,
    decreases results.len(),
{
    if results.len() > 0 {
        lemma_sum_metric_bound(results.drop_last(), metric);
        assert((results.len() - 1) * 0xffff_ffff_ffff_ffff + 0xffff_ffff_ffff_ffff
            == results.len() * 0xffff_ffff_ffff_ffff) by (nonlinear_arith);
    }
}

/// The mean of one metric over a list that is not empty.
pub fn mean_of(results: &[BenchmarkResult], metric: Metric) -> (mean: Decimal)
    requires
        results@.len() > 0,
    ensures
        mean == mean_metric(results@, metric),
{
    let count = results.len();
    let mut total: u128 = 0;
    let mut i: usize = 0;
    while i < count
        invariant
            count == results@.len(),
            i <= count,
            total == sum_metric(results@.take(i as int), metric),
        decreases count - i,
    {
        proof {
            let next = results@.take(i + 1);
            assert(next.drop_last() == results@.take(i as int));
            assert(next.last() == results@[i as int]);
            lemma_sum_metric_bound(next, metric);
            assert(next.len() * 0xffff_ffff_ffff_ffff <= 0xffff_ffff_ffff_ffff
                * 0xffff_ffff_ffff_ffff) by (nonlinear_arith)
                requires
                    next.len() <= 0xffff_ffff_ffff_ffff,
            ;
        }
        total = total + metric.of(&results[i]).thousandths as u128;
        i = i + 1;
    }
    proof {
        assert(results@.take(count as int) == results@);
        lemma_sum_metric_bound(results@, metric);
        assert(total as int / (count as int) <= 0xffff_ffff_ffff_ffff) by (nonlinear_arith)
            requires
                0 <= total <= count * 0xffff_ffff_ffff_ffff,
                count > 0,
        ;
    }
    Decimal::from_thousandths((total / (count as u128)) as u64)
}

/// The averages of a list of results under the name `Average`: `None` for an
/// empty list. The averages carry the label of the first result.
pub fn average_metrics(results: &[BenchmarkResult], timestamp: i64) -> (averages: Option<
    BenchmarkResult,
>)
    ensures
        averages is None <==> results@.len() == 0,
        averages matches Some(a) ==> {
            &&& a.framework == results@[0].framework
            &&& a.test_name@ == "Average"@
            &&& a.requests_per_second == mean_metric(results@, Metric::RequestsPerSecond)
            &&& a.average_response_time_ms == mean_metric(results@, Metric::AverageResponseTime)
            &&& a.p95_response_time_ms == mean_metric(results@, Metric::P95ResponseTime)
            &&& a.p99_response_time_ms == mean_metric(results@, Metric::P99ResponseTime)
            &&& a.memory_usage_mb == mean_metric(results@, Metric::MemoryUsage)
            &&& a.cpu_usage_percent == mean_metric(results@, Metric::CpuUsage)
            &&& a.timestamp == timestamp
        },
{
    if results.len() == 0 {
        return None;
    }
    Some(
        BenchmarkResult {
            framework: results[0].framework.clone(),
            test_name: String::from_str("Average"),
            requests_per_second: mean_of(results, Metric::RequestsPerSecond),
            average_response_time_ms: mean_of(results, Metric::AverageResponseTime),
            p95_response_time_ms: mean_of(results, Metric::P95ResponseTime),
            p99_response_time_ms: mean_of(results, Metric::P99ResponseTime),
            memory_usage_mb: mean_of(results, Metric::MemoryUsage),
            cpu_usage_percent: mean_of(results, Metric::CpuUsage),
            timestamp,
        },
    )
}

/// The two systems that a comparison is about.
#[derive(Clone, Copy, Debug, PartialEq, Eq, Structural)]
pub enum Framework {
    Axum,
    Loco,
}

/// Who wins on one metric, and by how much.
#[derive(Clone, Copy, Debug, PartialEq, Eq, Structural)]
pub struct Verdict {
    pub winner: Framework,
    /// The winner's figure.
    pub winning: Decimal,
    /// The other figure.
    pub losing: Decimal,
    /// The distance between the two figures in percent of `base`, rounded
    /// down to a thousandth; `None` where `base` is zero.
    pub difference: Option<Decimal>,
}

/// The distance between two figures in percent of `base`.
pub open spec fn relative_difference(larger: Decimal, smaller: Decimal, base: Decimal) -> Option<
    Decimal,
> {
    if base.thousandths == 0 {
        None
    } else {
        Some(
            Decimal {
                thousandths: saturate(
                    (larger.thousandths - smaller.thousandths) * 100_000 / (
                    base.thousandths as int),
                ),
            },
        )
    }
}

/// Throughput: the higher figure wins, by the distance in percent of the
/// loser's figure. On equal figures the second system is named.
pub open spec fn throughput_verdict_of(axum: Decimal, loco: Decimal) -> Verdict {
    if axum.thousandths > loco.thousandths {
        Verdict {
            winner: Framework::Axum,
            winning: axum,
            losing: loco,
            difference: relative_difference(axum, loco, loco),
        }
    } else {
        Verdict {
            winner: Framework::Loco,
            winning: loco,
            losing: axum,
            difference: relative_difference(loco, axum, axum),
        }
    }
}

/// Response time: the lower figure wins, by the distance in percent of the
/// loser's figure. On equal figures the second system is named.
pub open spec fn response_time_verdict_of(axum: Decimal, loco: Decimal) -> Verdict {
    if axum.thousandths < loco.thousandths {
        Verdict {
            winner: Framework::Axum,
            winning: axum,
            losing: loco,
            difference: relative_difference(loco, axum, loco),
        }
    } else {
        Verdict {
            winner: Framework::Loco,
            winning: loco,
            losing: axum,
            difference: relative_difference(axum, loco, axum),
        }
    }
}

/// The distance between `larger` and `smaller` in percent of `base`.
fn difference_percent(larger: Decimal, smaller: Decimal, base: Decimal) -> (difference: Option<
    Decimal,
>)
    requires
        smaller.thousandths <= larger.thousandths,
    ensures
        difference == relative_difference(larger, smaller, base),
{
    if base.thousandths == 0 {
        return None;
    }
    let distance: u128 = (larger.thousandths - smaller.thousandths) as u128;
    Some(Decimal::saturating_from_thousandths(distance * 100_000 / (base.thousandths as u128)))
}

/// Who wins on throughput.
pub fn throughput_verdict(axum: Decimal, loco: Decimal) -> (verdict: Verdict)
    ensures
        verdict == throughput_verdict_of(axum, loco),
{
    if axum.thousandths > loco.thousandths {
        Verdict {
            winner: Framework::Axum,
            winning: axum,
            losing: loco,
            difference: difference_percent(axum, loco, loco),
        }
    } else {
        Verdict {
            winner: Framework::Loco,
            winning: loco,
            losing: axum,
            difference: difference_percent(loco, axum, axum),
        }
    }
}

/// Who wins on response time.
pub fn response_time_verdict(axum: Decimal, loco: Decimal) -> (verdict: Verdict)
    ensures
        verdict == response_time_verdict_of(axum, loco),
{
    if axum.thousandths < loco.thousandths {
        Verdict {
            winner: Framework::Axum,
            winning: axum,
            losing: loco,
            difference: difference_percent(loco, axum, loco),
        }
    } else {
        Verdict {
            winner: Framework::Loco,
            winning: loco,
            losing: axum,
            difference: difference_percent(axum, loco, axum),
        }
    }
}

impl Framework {
    /// The name under which the report speaks of the system.
    pub open spec fn spec_name(self) -> Seq<char> {
        match self {
            Framework::Axum => "AXUM"@,
            Framework::Loco => "LOCO"@,
        }
    }

    /// The name under which the report speaks of the system.
    pub fn name(self) -> (name: &'static str)
        ensures
            name@ == self.spec_name(),
    {
        match self {
            Framework::Axum => "AXUM",
            Framework::Loco => "LOCO",
        }
    }
}

/// One row of the summary table: the system's name, its mean requests per
/// second, and its mean average, 95th and 99th percentile response times.
pub open spec fn summary_row_text(
    framework: Framework,
    requests_per_second: Decimal,
    average: Decimal,
    p95: Decimal,
    p99: Decimal,
) -> Seq<char> {
    "| "@ + framework.spec_name() + "      | "@ + two_places_text(requests_per_second) + "    | "@
        + two_places_text(average) + "                   | "@ + two_places_text(p95)
        + "     | "@ + two_places_text(p99) + "     |\n"@
}

/// The figures of one test, as a list.
pub open spec fn result_text(result: BenchmarkResult) -> Seq<char> {
    "**"@ + result.test_name@ + "**\n"@ + "- Requests/sec: "@ + two_places_text(
        result.requests_per_second,
    ) + "\n"@ + "- Avg response time: "@ + two_places_text(result.average_response_time_ms)
        + "ms\n"@ + "- P95 response time: "@ + two_places_text(result.p95_response_time_ms)
        + "ms\n"@ + "- P99 response time: "@ + two_places_text(result.p99_response_time_ms)
        + "ms\n"@ + "\n"@
}

/// The figures of every test, in the order of the list.
pub open spec fn results_text(results: Seq<BenchmarkResult>) -> Seq<char>
    decreases results.len(),
{
    if results.len() == 0 {
        Seq::empty()
    } else {
        results_text(results.drop_last()) + result_text(results.last())
    }
}

/// The section with one system's tests: nothing where it has none.
pub open spec fn details_text(framework: Framework, results: Seq<BenchmarkResult>) -> Seq<char> {
    if results.len() == 0 {
        Seq::empty()
    } else {
        "### "@ + framework.spec_name() + " Framework Results\n\n"@ + results_text(results)
    }
}

/// A difference in percent with one fractional digit. Where the base is zero
/// there is no quotient: the text is `NaN` between equal figures and `inf`
/// between others.
pub open spec fn difference_text(verdict: Verdict) -> Seq<char> {
    match verdict.difference {
        Some(d) => one_place_text(d),
        None => if verdict.winning == verdict.losing {
            "NaN"@
        } else {
            "inf"@
        },
    }
}

/// The sentence that names the winner on throughput.
pub open spec fn throughput_text(verdict: Verdict) -> Seq<char> {
    "\u{1F3C6} **"@ + verdict.winner.spec_name() + " wins in throughput** by "@ + difference_text(
        verdict,
    ) + "% ("@ + two_places_text(verdict.winning) + " vs "@ + two_places_text(verdict.losing)
        + " req/s)\n\n"@
}

/// The sentence that names the winner on response time.
pub open spec fn response_time_text(verdict: Verdict) -> Seq<char> {
    "\u{26A1} **"@ + verdict.winner.spec_name() + " wins in response time** by "@
        + difference_text(verdict) + "% ("@ + two_places_text(verdict.winning) + "ms vs "@
        + two_places_text(verdict.losing) + "ms)\n\n"@
}

/// The row of the summary table for one system: nothing where it has no
/// results.
pub open spec fn summary_text(framework: Framework, results: Seq<BenchmarkResult>) -> Seq<char> {
    if results.len() == 0 {
        Seq::empty()
    } else {
        summary_row_text(
            framework,
            mean_metric(results, Metric::RequestsPerSecond),
            mean_metric(results, Metric::AverageResponseTime),
            mean_metric(results, Metric::P95ResponseTime),
            mean_metric(results, Metric::P99ResponseTime),
        )
    }
}

/// The winner on mean throughput between two systems that both have results.
pub open spec fn throughput_winner(
    axum: Seq<BenchmarkResult>,
    loco: Seq<BenchmarkResult>,
) -> Verdict {
    throughput_verdict_of(
        mean_metric(axum, Metric::RequestsPerSecond),
        mean_metric(loco, Metric::RequestsPerSecond),
    )
}

/// The winner on mean response time between two systems that both have
/// results.
pub open spec fn response_time_winner(
    axum: Seq<BenchmarkResult>,
    loco: Seq<BenchmarkResult>,
) -> Verdict {
    response_time_verdict_of(
        mean_metric(axum, Metric::AverageResponseTime),
        mean_metric(loco, Metric::AverageResponseTime),
    )
}

/// The winner sentences: nothing unless both systems have results.
pub open spec fn analysis_text(axum: Seq<BenchmarkResult>, loco: Seq<BenchmarkResult>) -> Seq<
    char,
> {
    if axum.len() == 0 || loco.len() == 0 {
        Seq::empty()
    } else {
        throughput_text(throughput_winner(axum, loco)) + response_time_text(
            response_time_winner(axum, loco),
        )
    }
}

/// The whole report: title, time of writing, summary table, every test of
/// either system, and the winner sentences.
pub open spec fn report_text(
    axum: Seq<BenchmarkResult>,
    loco: Seq<BenchmarkResult>,
    generated_at: Seq<char>,
) -> Seq<char> {
    "# AXUM vs LOCO Performance Comparison Report\n\n"@ + "Generated at: "@ + generated_at
        + "\n\n"@ + "## Summary\n\n"@
        + "| Framework | Avg RPS | Avg Response Time (ms) | P95 (ms) | P99 (ms) |\n"@
        + "|-----------|---------|------------------------|----------|----------|\n"@
        + summary_text(Framework::Axum, axum) + summary_text(Framework::Loco, loco)
        + "\n## Detailed Results\n\n"@ + details_text(Framework::Axum, axum) + details_text(
        Framework::Loco,
        loco,
    ) + "## Analysis\n\n"@ + analysis_text(axum, loco)
}

/// Appends one row of the summary table.
fn push_summary_row(out: &mut String, framework: Framework, averages: &BenchmarkResult)
    ensures
        final(out)@ == old(out)@ + summary_row_text(
            framework,
            averages.requests_per_second,
            averages.average_response_time_ms,
            averages.p95_response_time_ms,
            averages.p99_response_time_ms,
        ),
{
    out.append("| ");
    out.append(framework.name());
    out.append("      | ");
    push_two_places(out, averages.requests_per_second);
    out.append("    | ");
    push_two_places(out, averages.average_response_time_ms);
    out.append("                   | ");
    push_two_places(out, averages.p95_response_time_ms);
    out.append("     | ");
    push_two_places(out, averages.p99_response_time_ms);
    out.append("     |\n");
    assert(out@ =~= old(out)@ + summary_row_text(
        framework,
        averages.requests_per_second,
        averages.average_response_time_ms,
        averages.p95_response_time_ms,
        averages.p99_response_time_ms,
    ));
}

/// Appends the figures of one test.
fn push_result(out: &mut String, result: &BenchmarkResult)
    ensures
        final(out)@ == old(out)@ + result_text(*result),
{
    out.append("**");
    out.append(result.test_name.as_str());
    out.append("**\n");
    out.append("- Requests/sec: ");
    push_two_places(out, result.requests_per_second);
    out.append("\n");
    out.append("- Avg response time: ");
    push_two_places(out, result.average_response_time_ms);
    out.append("ms\n");
    out.append("- P95 response time: ");
    push_two_places(out, result.p95_response_time_ms);
    out.append("ms\n");
    out.append("- P99 response time: ");
    push_two_places(out, result.p99_response_time_ms);
    out.append("ms\n");
    out.append("\n");
    assert(out@ =~= old(out)@ + result_text(*result));
}

/// Appends the section with one system's tests.
fn push_details(out: &mut String, framework: Framework, results: &Vec<BenchmarkResult>)
    ensures
        final(out)@ == old(out)@ + details_text(framework, results@),
{
    if results.len() == 0 {
        assert(out@ =~= old(out)@ + details_text(framework, results@));
        return ;
    }
    out.append("### ");
    out.append(framework.name());
    out.append(" Framework Results\n\n");
    let ghost head = out@;
    let mut i: usize = 0;
    while i < results.len()
        invariant
            i <= results@.len(),
            head == old(out)@ + "### "@ + framework.spec_name() + " Framework Results\n\n"@,
            out@ == head + results_text(results@.take(i as int)),
        decreases results@.len() - i,
    {
        assert(results@.take(i + 1).drop_last() == results@.take(i as int));
        push_result(out, &results[i]);
        assert(out@ =~= head + results_text(results@.take(i + 1)));
        i = i + 1;
    }
    assert(results@.take(results@.len() as int) == results@);
    assert(out@ =~= old(out)@ + details_text(framework, results@));
}

/// Appends a verdict's difference in percent.
fn push_difference(out: &mut String, verdict: &Verdict)
    ensures
        final(out)@ == old(out)@ + difference_text(*verdict),
{
    match verdict.difference {
        Some(d) => push_one_place(out, d),
        None => {
            if verdict.winning.thousandths == verdict.losing.thousandths {
                out.append("NaN");
            } else {
                out.append("inf");
            }
        },
    }
}

/// Appends the sentence that names the winner on throughput.
fn push_throughput(out: &mut String, verdict: &Verdict)
    ensures
        final(out)@ == old(out)@ + throughput_text(*verdict),
{
    out.append("\u{1F3C6} **");
    out.append(verdict.winner.name());
    out.append(" wins in throughput** by ");
    push_difference(out, verdict);
    out.append("% (");
    push_two_places(out, verdict.winning);
    out.append(" vs ");
    push_two_places(out, verdict.losing);
    out.append(" req/s)\n\n");
    assert(out@ =~= old(out)@ + throughput_text(*verdict));
}

/// Appends the sentence that names the winner on response time.
fn push_response_time(out: &mut String, verdict: &Verdict)
    ensures
        final(out)@ == old(out)@ + response_time_text(*verdict),
{
    out.append("\u{26A1} **");
    out.append(verdict.winner.name());
    out.append(" wins in response time** by ");
    push_difference(out, verdict);
    out.append("% (");
    push_two_places(out, verdict.winning);
    out.append("ms vs ");
    push_two_places(out, verdict.losing);
    out.append("ms)\n\n");
    assert(out@ =~= old(out)@ + response_time_text(*verdict));
}

/// The results of two systems, side by side.
#[derive(Debug)]
pub struct FrameworkComparison {
    pub axum_results: Vec<BenchmarkResult>,
    pub loco_results: Vec<BenchmarkResult>,
}

impl FrameworkComparison {
    /// A comparison without results.
    pub fn new() -> (comparison: FrameworkComparison)
        ensures
            comparison.axum_results@ == Seq::<BenchmarkResult>::empty(),
            comparison.loco_results@ == Seq::<BenchmarkResult>::empty(),
    {
        FrameworkComparison { axum_results: Vec::new(), loco_results: Vec::new() }
    }

    pub fn add_axum_result(&mut self, result: BenchmarkResult)
        ensures
            final(self).axum_results@ == old(self).axum_results@.push(result),
            final(self).loco_results@ == old(self).loco_results@,
    {
        self.axum_results.push(result);
    }

    pub fn add_loco_result(&mut self, result: BenchmarkResult)
        ensures
            final(self).loco_results@ == old(self).loco_results@.push(result),
            final(self).axum_results@ == old(self).axum_results@,
    {
        self.loco_results.push(result);
    }

    /// The averages of a list of results, stamped with the current time:
    /// `None` for an empty list.
    pub fn calculate_average_metrics(&self, results: &[BenchmarkResult]) -> (averages: Option<
        BenchmarkResult,
    >)
        ensures
            averages is None <==> results@.len() == 0,
            averages matches Some(a) ==> {
                &&& a.framework == results@[0].framework
                &&& a.test_name@ == "Average"@
                &&& a.requests_per_second == mean_metric(results@, Metric::RequestsPerSecond)
                &&& a.average_response_time_ms == mean_metric(
                    results@,
                    Metric::AverageResponseTime,
                )
                &&& a.p95_response_time_ms == mean_metric(results@, Metric::P95ResponseTime)
                &&& a.p99_response_time_ms == mean_metric(results@, Metric::P99ResponseTime)
                &&& a.memory_usage_mb == mean_metric(results@, Metric::MemoryUsage)
                &&& a.cpu_usage_percent == mean_metric(results@, Metric::CpuUsage)
                &&& is_clock_millis(a.timestamp)
            },
    {
        let now = now_millis();
        average_metrics(results, now)
    }

    /// Who wins on mean throughput: `None` unless both systems have results.
    pub fn throughput_winner(&self) -> (verdict: Option<Verdict>)
        ensures
            verdict is Some <==> self.axum_results@.len() > 0 && self.loco_results@.len() > 0,
            verdict matches Some(v) ==> v == throughput_winner(
                self.axum_results@,
                self.loco_results@,
            ),
    {
        if self.axum_results.len() == 0 || self.loco_results.len() == 0 {
            return None;
        }
        Some(
            throughput_verdict(
                mean_of(self.axum_results.as_slice(), Metric::RequestsPerSecond),
                mean_of(self.loco_results.as_slice(), Metric::RequestsPerSecond),
            ),
        )
    }

    /// Who wins on mean response time: `None` unless both systems have
    /// results.
    pub fn response_time_winner(&self) -> (verdict: Option<Verdict>)
        ensures
            verdict is Some <==> self.axum_results@.len() > 0 && self.loco_results@.len() > 0,
            verdict matches Some(v) ==> v == response_time_winner(
                self.axum_results@,
                self.loco_results@,
            ),
    {
        if self.axum_results.len() == 0 || self.loco_results.len() == 0 {
            return None;
        }
        Some(
            response_time_verdict(
                mean_of(self.axum_results.as_slice(), Metric::AverageResponseTime),
                mean_of(self.loco_results.as_slice(), Metric::AverageResponseTime),
            ),
        )
    }

    /// The report, dated with the current time.
    pub fn generate_comparison_report(&self) -> (report: String)
        ensures
            exists|generated_at: Seq<char>|
                report@ == #[trigger] report_text(
                    self.axum_results@,
                    self.loco_results@,
                    generated_at,
                ),
    {
        let generated_at = timestamp_text("%Y-%m-%d %H:%M:%S UTC");
        let report = self.render_comparison_report(generated_at.as_str());
        assert(report@ == report_text(self.axum_results@, self.loco_results@, generated_at@));
        report
    }

    /// The report, dated with `generated_at`.
    pub fn render_comparison_report(&self, generated_at: &str) -> (report: String)
        ensures
            report@ == report_text(self.axum_results@, self.loco_results@, generated_at@),
    {
        let mut report = String::new();
        report.append("# AXUM vs LOCO Performance Comparison Report\n\n");
        report.append("Generated at: ");
        report.append(generated_at);
        report.append("\n\n");
        report.append("## Summary\n\n");
        report.append("| Framework | Avg RPS | Avg Response Time (ms) | P95 (ms) | P99 (ms) |\n");
        report.append("|-----------|---------|------------------------|----------|----------|\n");
        let ghost head = report@;
        match average_metrics(self.axum_results.as_slice(), 0) {
            Some(averages) => {
                push_summary_row(&mut report, Framework::Axum, &averages);
            },
            None => {},
        }
        assert(report@ =~= head + summary_text(Framework::Axum, self.axum_results@));
        let ghost head = report@;
        match average_metrics(self.loco_results.as_slice(), 0) {
            Some(averages) => {
                push_summary_row(&mut report, Framework::Loco, &averages);
            },
            None => {},
        }
        assert(report@ =~= head + summary_text(Framework::Loco, self.loco_results@));
        report.append("\n## Detailed Results\n\n");
        push_details(&mut report, Framework::Axum, &self.axum_results);
        push_details(&mut report, Framework::Loco, &self.loco_results);
        report.append("## Analysis\n\n");
        let ghost head = report@;
        match self.throughput_winner() {
            Some(verdict) => {
                push_throughput(&mut report, &verdict);
            },
            None => {},
        }
        match self.response_time_winner() {
            Some(verdict) => {
                push_response_time(&mut report, &verdict);
            },
            None => {},
        }
        assert(report@ =~= head + analysis_text(self.axum_results@, self.loco_results@));
        assert(report@ =~= report_text(self.axum_results@, self.loco_results@, generated_at@));
        report
    }
}

} // verus!
