use shared::comparison::{
    average_metrics, mean_of, response_time_verdict, throughput_verdict, Framework,
    FrameworkComparison, Metric, Verdict,
};
use shared::decimal::Decimal;
use shared::models::BenchmarkResult;
use shared::report::{generate_html_report, render_html_report, sample_comparison};
use shared::text::{decimal_string, push_decimal, push_one_place, push_two_places};

fn d(thousandths: u64) -> Decimal {
    Decimal { thousandths }
}

fn result(framework: &str, test_name: &str, rps: u64, avg: u64, p95: u64, p99: u64) -> BenchmarkResult {
    BenchmarkResult {
        framework: framework.to_string(),
        test_name: test_name.to_string(),
        requests_per_second: d(rps),
        average_response_time_ms: d(avg),
        p95_response_time_ms: d(p95),
        p99_response_time_ms: d(p99),
        memory_usage_mb: d(40_000),
        cpu_usage_percent: d(10_000),
        timestamp: 5,
    }
}

fn two_places(value: u64) -> String {
    let mut out = String::new();
    push_two_places(&mut out, d(value));
    out
}

fn one_place(value: u64) -> String {
    let mut out = String::new();
    push_one_place(&mut out, d(value));
    out
}

#[test]
fn numbers_are_written_in_decimal() {
    assert_eq!(decimal_string(0), "0");
    assert_eq!(decimal_string(7), "7");
    assert_eq!(decimal_string(10), "10");
    assert_eq!(decimal_string(1_234_567_890), "1234567890");
    assert_eq!(decimal_string(u128::MAX), "340282366920938463463374607431768211455");
    let mut out = "n=".to_string();
    push_decimal(&mut out, 42);
    assert_eq!(out, "n=42");
}

#[test]
fn decimals_are_rounded_to_two_places() {
    assert_eq!(two_places(15_420_500), "15420.50");
    assert_eq!(two_places(6_200), "6.20");
    assert_eq!(two_places(0), "0.00");
    assert_eq!(two_places(4), "0.00");
    assert_eq!(two_places(5), "0.01");
    assert_eq!(two_places(994), "0.99");
    assert_eq!(two_places(995), "1.00");
    assert_eq!(two_places(12_345), "12.35");
    assert_eq!(two_places(u64::MAX), "18446744073709551.62");
}

#[test]
fn decimals_are_rounded_to_one_place() {
    assert_eq!(one_place(3_840), "3.8");
    assert_eq!(one_place(3_850), "3.9");
    assert_eq!(one_place(49), "0.0");
    assert_eq!(one_place(50), "0.1");
    assert_eq!(one_place(99_950), "100.0");
    assert_eq!(one_place(u64::MAX), "18446744073709551.6");
}

#[test]
fn the_higher_throughput_wins() {
    let verdict = throughput_verdict(d(15_420_500), d(14_850_200));
    assert_eq!(verdict.winner, Framework::Axum);
    assert_eq!(verdict.winning, d(15_420_500));
    assert_eq!(verdict.losing, d(14_850_200));
    // (15420.5 - 14850.2) / 14850.2 * 100 = 3.8403...
    assert_eq!(verdict.difference, Some(d(3_840)));
    let as_float = verdict.difference.unwrap().thousandths as f64 / 1000.0;
    assert!((as_float - (15420.5 - 14850.2) / 14850.2 * 100.0).abs() < 0.001);

    let verdict = throughput_verdict(d(1_000), d(4_000));
    assert_eq!(verdict.winner, Framework::Loco);
    assert_eq!(verdict.difference, Some(d(300_000)));
}

#[test]
fn the_lower_response_time_wins() {
    let verdict = response_time_verdict(d(6_200), d(6_700));
    assert_eq!(verdict.winner, Framework::Axum);
    assert_eq!(verdict.winning, d(6_200));
    assert_eq!(verdict.losing, d(6_700));
    // (6.7 - 6.2) / 6.7 * 100 = 7.4626...
    assert_eq!(verdict.difference, Some(d(7_462)));

    let verdict = response_time_verdict(d(9_000), d(6_000));
    assert_eq!(verdict.winner, Framework::Loco);
    // (9 - 6) / 9 * 100 = 33.333...
    assert_eq!(verdict.difference, Some(d(33_333)));
}

#[test]
fn on_equal_figures_the_second_system_is_named() {
    let verdict = throughput_verdict(d(500), d(500));
    assert_eq!(verdict.winner, Framework::Loco);
    assert_eq!(verdict.difference, Some(d(0)));
    let verdict = response_time_verdict(d(500), d(500));
    assert_eq!(verdict.winner, Framework::Loco);
    assert_eq!(verdict.difference, Some(d(0)));
}

#[test]
fn a_zero_base_has_no_relative_difference() {
    let verdict = throughput_verdict(d(500), d(0));
    assert_eq!(
        verdict,
        Verdict { winner: Framework::Axum, winning: d(500), losing: d(0), difference: None }
    );
    let verdict = throughput_verdict(d(0), d(0));
    assert_eq!(verdict.winner, Framework::Loco);
    assert_eq!(verdict.difference, None);
    let verdict = response_time_verdict(d(0), d(0));
    assert_eq!(verdict.difference, None);
}

#[test]
fn a_huge_difference_saturates() {
    let verdict = throughput_verdict(d(u64::MAX), d(1));
    assert_eq!(verdict.winner, Framework::Axum);
    assert_eq!(verdict.difference, Some(d(u64::MAX)));
}

#[test]
fn means_are_arithmetic_means() {
    let results = vec![
        result("AXUM", "a", 15_420_500, 6_200, 12_800, 25_400),
        result("AXUM", "b", 8_750_300, 11_400, 28_600, 45_200),
    ];
    assert_eq!(mean_of(&results, Metric::RequestsPerSecond), d(12_085_400));
    assert_eq!(mean_of(&results, Metric::AverageResponseTime), d(8_800));
    assert_eq!(mean_of(&results, Metric::P95ResponseTime), d(20_700));
    assert_eq!(mean_of(&results, Metric::P99ResponseTime), d(35_300));
    assert_eq!(mean_of(&results, Metric::MemoryUsage), d(40_000));
    assert_eq!(mean_of(&results, Metric::CpuUsage), d(10_000));
    let averages = average_metrics(&results, 77).unwrap();
    assert_eq!(averages.framework, "AXUM");
    assert_eq!(averages.test_name, "Average");
    assert_eq!(averages.requests_per_second, d(12_085_400));
    assert_eq!(averages.average_response_time_ms, d(8_800));
    assert_eq!(averages.p95_response_time_ms, d(20_700));
    assert_eq!(averages.p99_response_time_ms, d(35_300));
    assert_eq!(averages.timestamp, 77);
}

#[test]
fn means_round_down_and_do_not_overflow() {
    let results = vec![
        result("A", "a", 1, 0, 0, 0),
        result("A", "b", 2, 0, 0, 0),
        result("A", "c", 2, 0, 0, 0),
    ];
    assert_eq!(mean_of(&results, Metric::RequestsPerSecond), d(1));
    let results = vec![
        result("A", "a", u64::MAX, 0, 0, 0),
        result("A", "b", u64::MAX, 0, 0, 0),
        result("A", "c", u64::MAX - 3, 0, 0, 0),
    ];
    assert_eq!(mean_of(&results, Metric::RequestsPerSecond), d(u64::MAX - 1));
}

#[test]
fn an_empty_list_has_no_averages() {
    assert!(average_metrics(&vec![], 0).is_none());
    let comparison = FrameworkComparison::new();
    assert!(comparison.calculate_average_metrics(&vec![]).is_none());
    assert!(comparison.throughput_winner().is_none());
    assert!(comparison.response_time_winner().is_none());
}

#[test]
fn the_clock_stamps_calculated_averages() {
    let comparison = FrameworkComparison::new();
    let averages =
        comparison.calculate_average_metrics(&vec![result("LOCO", "a", 10, 20, 30, 40)]).unwrap();
    assert_eq!(averages.framework, "LOCO");
    assert_eq!(averages.test_name, "Average");
    assert_eq!(averages.requests_per_second, d(10));
    assert!(averages.timestamp > 1_577_836_800_000);
}

#[test]
fn the_throughput_winner_of_two_single_results() {
    let mut comparison = FrameworkComparison::new();
    comparison.add_axum_result(result("AXUM", "Health Check", 15_420_500, 6_200, 12_800, 25_400));
    assert!(comparison.throughput_winner().is_none());
    comparison.add_loco_result(result("LOCO", "Health Check", 14_850_200, 6_700, 13_500, 27_100));
    let verdict = comparison.throughput_winner().unwrap();
    assert_eq!(verdict.winner, Framework::Axum);
    assert_eq!(verdict.difference, Some(d(3_840)));
    let report = comparison.render_comparison_report("now");
    assert!(report
        .contains("\u{1F3C6} **AXUM wins in throughput** by 3.8% (15420.50 vs 14850.20 req/s)\n\n"));
    assert!(report
        .contains("\u{26A1} **AXUM wins in response time** by 7.5% (6.20ms vs 6.70ms)\n\n"));
}

#[test]
fn the_sample_report_reads_as_expected() {
    let comparison = sample_comparison(1_700_000_000_000);
    assert_eq!(comparison.axum_results.len(), 2);
    assert_eq!(comparison.loco_results.len(), 2);
    assert_eq!(comparison.axum_results[0].timestamp, 1_700_000_000_000);
    assert_eq!(comparison.loco_results[1].memory_usage_mb, d(48_500));
    assert_eq!(comparison.loco_results[1].cpu_usage_percent, d(16_200));
    let figures = |r: &BenchmarkResult| {
        vec![
            r.requests_per_second.thousandths,
            r.average_response_time_ms.thousandths,
            r.p95_response_time_ms.thousandths,
            r.p99_response_time_ms.thousandths,
            r.memory_usage_mb.thousandths,
            r.cpu_usage_percent.thousandths,
        ]
    };
    assert_eq!(
        figures(&comparison.axum_results[0]),
        vec![15_420_500, 6_200, 12_800, 25_400, 45_200, 12_300]
    );
    assert_eq!(
        figures(&comparison.axum_results[1]),
        vec![8_750_300, 11_400, 28_600, 45_200, 52_100, 18_700]
    );
    assert_eq!(
        figures(&comparison.loco_results[0]),
        vec![14_850_200, 6_700, 13_500, 27_100, 42_800, 10_500]
    );
    assert_eq!(
        figures(&comparison.loco_results[1]),
        vec![8_420_700, 11_900, 30_200, 48_600, 48_500, 16_200]
    );
    assert_eq!(comparison.axum_results[1].framework, "AXUM");
    assert_eq!(comparison.loco_results[0].test_name, "Health Check");
    let report = comparison.render_comparison_report("2024-01-02 03:04:05 UTC");
    let expected = "# AXUM vs LOCO Performance Comparison Report\n\n\
Generated at: 2024-01-02 03:04:05 UTC\n\n\
## Summary\n\n\
| Framework | Avg RPS | Avg Response Time (ms) | P95 (ms) | P99 (ms) |\n\
|-----------|---------|------------------------|----------|----------|\n\
| AXUM      | 12085.40    | 8.80                   | 20.70     | 35.30     |\n\
| LOCO      | 11635.45    | 9.30                   | 21.85     | 37.85     |\n\
\n## Detailed Results\n\n\
### AXUM Framework Results\n\n\
**Health Check**\n\
- Requests/sec: 15420.50\n\
- Avg response time: 6.20ms\n\
- P95 response time: 12.80ms\n\
- P99 response time: 25.40ms\n\
\n\
**REST API**\n\
- Requests/sec: 8750.30\n\
- Avg response time: 11.40ms\n\
- P95 response time: 28.60ms\n\
- P99 response time: 45.20ms\n\
\n\
### LOCO Framework Results\n\n\
**Health Check**\n\
- Requests/sec: 14850.20\n\
- Avg response time: 6.70ms\n\
- P95 response time: 13.50ms\n\
- P99 response time: 27.10ms\n\
\n\
**REST API**\n\
- Requests/sec: 8420.70\n\
- Avg response time: 11.90ms\n\
- P95 response time: 30.20ms\n\
- P99 response time: 48.60ms\n\
\n\
## Analysis\n\n\
\u{1F3C6} **AXUM wins in throughput** by 3.9% (12085.40 vs 11635.45 req/s)\n\n\
\u{26A1} **AXUM wins in response time** by 5.4% (8.80ms vs 9.30ms)\n\n";
    assert_eq!(report, expected);
}

#[test]
fn a_report_without_results_has_only_its_frame() {
    let comparison = FrameworkComparison::new();
    let report = comparison.render_comparison_report("t");
    let expected = "# AXUM vs LOCO Performance Comparison Report\n\n\
Generated at: t\n\n\
## Summary\n\n\
| Framework | Avg RPS | Avg Response Time (ms) | P95 (ms) | P99 (ms) |\n\
|-----------|---------|------------------------|----------|----------|\n\
\n## Detailed Results\n\n\
## Analysis\n\n";
    assert_eq!(report, expected);
}

#[test]
fn a_report_with_one_system_has_no_analysis() {
    let mut comparison = FrameworkComparison::new();
    comparison.add_loco_result(result("LOCO", "Only", 1_000, 2_000, 3_000, 4_000));
    let report = comparison.render_comparison_report("t");
    assert!(report.contains("| LOCO      | 1.00    | 2.00                   | 3.00     | 4.00     |\n"));
    assert!(!report.contains("| AXUM"));
    assert!(report.contains("### LOCO Framework Results\n\n**Only**\n"));
    assert!(!report.contains("### AXUM"));
    assert!(report.ends_with("## Analysis\n\n"));
}

#[test]
fn a_report_names_differences_without_a_base() {
    let mut comparison = FrameworkComparison::new();
    comparison.add_axum_result(result("AXUM", "a", 0, 0, 0, 0));
    comparison.add_loco_result(result("LOCO", "a", 0, 5_000, 0, 0));
    let report = comparison.render_comparison_report("t");
    assert!(report.contains("**LOCO wins in throughput** by NaN% (0.00 vs 0.00 req/s)"));
    assert!(report.contains("**AXUM wins in response time** by 100.0% (0.00ms vs 5.00ms)"));
    let mut comparison = FrameworkComparison::new();
    comparison.add_axum_result(result("AXUM", "a", 7_000, 0, 0, 0));
    comparison.add_loco_result(result("LOCO", "a", 0, 0, 0, 0));
    let report = comparison.render_comparison_report("t");
    assert!(report.contains("**AXUM wins in throughput** by inf% (7.00 vs 0.00 req/s)"));
    assert!(report.contains("**LOCO wins in response time** by NaN% (0.00ms vs 0.00ms)"));
}

#[test]
fn the_generated_report_is_dated_by_the_clock() {
    let comparison = sample_comparison(0);
    let report = comparison.generate_comparison_report();
    let line = report.lines().nth(2).unwrap();
    assert!(line.starts_with("Generated at: 2"), "{}", line);
    assert!(line.ends_with(" UTC"), "{}", line);
    assert_eq!(line.len(), "Generated at: 2024-01-02 03:04:05 UTC".len());
    let dated = &line["Generated at: ".len()..];
    assert_eq!(report, comparison.render_comparison_report(dated));
}

#[test]
fn the_html_page_carries_its_date() {
    let page = render_html_report("2024-01-02 03:04:05 UTC");
    assert!(page.starts_with("<!DOCTYPE html>\n<html>\n<head>\n"));
    assert!(page.contains("    <p>Generated at: 2024-01-02 03:04:05 UTC</p>\n"));
    assert!(page.contains("body { font-family: Arial, sans-serif; margin: 40px; }"));
    assert!(page.contains("<td>12,085.4</td>"));
    assert!(page.ends_with("</body>\n</html>"));
    let generated = generate_html_report(&FrameworkComparison::new());
    assert!(generated.contains("<p>Generated at: 2"));
    assert_eq!(generated.len(), page.len());
}
