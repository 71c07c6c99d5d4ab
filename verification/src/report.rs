use crate::clock::timestamp_text;
use crate::comparison::FrameworkComparison;
use crate::decimal::Decimal;
use crate::models::{BenchmarkResult, ResultView};
use vstd::prelude::*;
use vstd::string::StringExecFns;

verus! {

/// The view of a result with the given figures, each in thousandths.
pub open spec fn result_view(
    framework: Seq<char>,
    test_name: Seq<char>,
    requests_per_second: int,
    average_response_time_ms: int,
    p95_response_time_ms: int,
    p99_response_time_ms: int,
    memory_usage_mb: int,
    cpu_usage_percent: int,
    timestamp: i64,
) -> ResultView {
    ResultView {
        framework,
        test_name,
        requests_per_second,
        average_response_time_ms,
        p95_response_time_ms,
        p99_response_time_ms,
        memory_usage_mb,
        cpu_usage_percent,
        timestamp,
    }
}

/// The sample results of the first system: a health check and a REST test.
pub open spec fn sample_axum_results(timestamp: i64) -> Seq<ResultView> {
    seq![
        result_view(
            "AXUM"@,
            "Health Check"@,
            15_420_500,
            6_200,
            12_800,
            25_400,
            45_200,
            12_300,
            timestamp,
        ),
        result_view(
            "AXUM"@,
            "REST API"@,
            8_750_300,
            11_400,
            28_600,
            45_200,
            52_100,
            18_700,
            timestamp,
        ),
    ]
}

/// The sample results of the second system: a health check and a REST test.
pub open spec fn sample_loco_results(timestamp: i64) -> Seq<ResultView> {
    seq![
        result_view(
            "LOCO"@,
            "Health Check"@,
            14_850_200,
            6_700,
            13_500,
            27_100,
            42_800,
            10_500,
            timestamp,
        ),
        result_view(
            "LOCO"@,
            "REST API"@,
            8_420_700,
            11_900,
            30_200,
            48_600,
            48_500,
            16_200,
            timestamp,
        ),
    ]
}

/// A result with the given figures, each in thousandths.
fn result_of(
    framework: &str,
    test_name: &str,
    requests_per_second: u64,
    average_response_time_ms: u64,
    p95_response_time_ms: u64,
    p99_response_time_ms: u64,
    memory_usage_mb: u64,
    cpu_usage_percent: u64,
    timestamp: i64,
) -> (result: BenchmarkResult)
    ensures
        result@ == result_view(
            framework@,
            test_name@,
            requests_per_second as int,
            average_response_time_ms as int,
            p95_response_time_ms as int,
            p99_response_time_ms as int,
            memory_usage_mb as int,
            cpu_usage_percent as int,
            timestamp,
        ),
{
    BenchmarkResult {
        framework: String::from_str(framework),
        test_name: String::from_str(test_name),
        requests_per_second: Decimal::from_thousandths(requests_per_second),
        average_response_time_ms: Decimal::from_thousandths(average_response_time_ms),
        p95_response_time_ms: Decimal::from_thousandths(p95_response_time_ms),
        p99_response_time_ms: Decimal::from_thousandths(p99_response_time_ms),
        memory_usage_mb: Decimal::from_thousandths(memory_usage_mb),
        cpu_usage_percent: Decimal::from_thousandths(cpu_usage_percent),
        timestamp,
    }
}

/// A comparison filled with two sample results for either system, a health
/// check and a REST test, all stamped with `timestamp`.
pub fn sample_comparison(timestamp: i64) -> (comparison: FrameworkComparison)
    ensures
        comparison.axum_results@.map_values(|r: BenchmarkResult| r@) == sample_axum_results(
            timestamp,
        ),
        comparison.loco_results@.map_values(|r: BenchmarkResult| r@) == sample_loco_results(
            timestamp,
        ),
{
    let mut comparison = FrameworkComparison::new();
    comparison.add_axum_result(
        result_of(
            "AXUM",
            "Health Check",
            15_420_500,
            6_200,
            12_800,
            25_400,
            45_200,
            12_300,
            timestamp,
        ),
    );
    comparison.add_axum_result(
        result_of("AXUM", "REST API", 8_750_300, 11_400, 28_600, 45_200, 52_100, 18_700, timestamp),
    );
    comparison.add_loco_result(
        result_of(
            "LOCO",
            "Health Check",
            14_850_200,
            6_700,
            13_500,
            27_100,
            42_800,
            10_500,
            timestamp,
        ),
    );
    comparison.add_loco_result(
        result_of("LOCO", "REST API", 8_420_700, 11_900, 30_200, 48_600, 48_500, 16_200, timestamp),
    );
    assert(comparison.axum_results@.map_values(|r: BenchmarkResult| r@) =~= sample_axum_results(
        timestamp,
    ));
    assert(comparison.loco_results@.map_values(|r: BenchmarkResult| r@) =~= sample_loco_results(
        timestamp,
    ));
    comparison
}

/// What the page says before the time of writing.
pub open spec fn html_head() -> Seq<char> {
    "<!DOCTYPE html>
<html>
<head>
    <title>AXUM vs LOCO Performance Comparison</title>
    <style>
        body { font-family: Arial, sans-serif; margin: 40px; }
        table { border-collapse: collapse; width: 100%; }
        th, td { border: 1px solid #ddd; padding: 8px; text-align: left; }
        th { background-color: #f2f2f2; }
        .winner { background-color: #d4edda; }
        .metric { font-weight: bold; }
    </style>
</head>
<body>
    <h1>AXUM vs LOCO Performance Comparison</h1>
    <p>Generated at: "@
}

/// What the page says after the time of writing.
pub open spec fn html_tail() -> Seq<char> {
    "</p>
    
    <h2>Summary</h2>
    <table>
        <tr>
            <th>Framework</th>
            <th>Avg RPS</th>
            <th>Avg Response Time (ms)</th>
            <th>P95 (ms)</th>
            <th>P99 (ms)</th>
        </tr>
        <tr>
            <td>AXUM</td>
            <td>12,085.4</td>
            <td>8.8</td>
            <td>20.7</td>
            <td>35.3</td>
        </tr>
        <tr>
            <td>LOCO</td>
            <td>11,635.5</td>
            <td>9.3</td>
            <td>21.9</td>
            <td>37.9</td>
        </tr>
    </table>
    
    <h2>Analysis</h2>
    <p>\u{1F3C6} <strong>AXUM wins in throughput</strong> by 3.9% (12,085.4 vs 11,635.5 req/s)</p>
    <p>\u{26A1} <strong>AXUM wins in response time</strong> by 5.4% (8.8ms vs 9.3ms)</p>
    
    <h2>Detailed Results</h2>
    <p>See the full markdown report for detailed test results.</p>
</body>
</html>"@
}

/// The sample page, dated with `generated_at`.
pub fn render_html_report(generated_at: &str) -> (page: String)
    ensures
        page@ == html_head() + generated_at@ + html_tail(),
{
    let mut page = String::from_str(
        "<!DOCTYPE html>
<html>
<head>
    <title>AXUM vs LOCO Performance Comparison</title>
    <style>
        body { font-family: Arial, sans-serif; margin: 40px; }
        table { border-collapse: collapse; width: 100%; }
        th, td { border: 1px solid #ddd; padding: 8px; text-align: left; }
        th { background-color: #f2f2f2; }
        .winner { background-color: #d4edda; }
        .metric { font-weight: bold; }
    </style>
</head>
<body>
    <h1>AXUM vs LOCO Performance Comparison</h1>
    <p>Generated at: ",
    );
    page.append(generated_at);
    page.append(
        "</p>
    
    <h2>Summary</h2>
    <table>
        <tr>
            <th>Framework</th>
            <th>Avg RPS</th>
            <th>Avg Response Time (ms)</th>
            <th>P95 (ms)</th>
            <th>P99 (ms)</th>
        </tr>
        <tr>
            <td>AXUM</td>
            <td>12,085.4</td>
            <td>8.8</td>
            <td>20.7</td>
            <td>35.3</td>
        </tr>
        <tr>
            <td>LOCO</td>
            <td>11,635.5</td>
            <td>9.3</td>
            <td>21.9</td>
            <td>37.9</td>
        </tr>
    </table>
    
    <h2>Analysis</h2>
    <p>\u{1F3C6} <strong>AXUM wins in throughput</strong> by 3.9% (12,085.4 vs 11,635.5 req/s)</p>
    <p>\u{26A1} <strong>AXUM wins in response time</strong> by 5.4% (8.8ms vs 9.3ms)</p>
    
    <h2>Detailed Results</h2>
    <p>See the full markdown report for detailed test results.</p>
</body>
</html>",
    );
    page
}

/// The sample page, dated with the current time. The comparison is not
/// consulted: the page shows fixed figures.
pub fn generate_html_report(_comparison: &FrameworkComparison) -> (page: String)
    ensures
        exists|generated_at: Seq<char>| page@ == html_head() + generated_at + html_tail(),
{
    let generated_at = timestamp_text("%Y-%m-%d %H:%M:%S UTC");
    let page = render_html_report(generated_at.as_str());
    assert(page@ == html_head() + generated_at@ + html_tail());
    page
}

} // verus!
