use shared::config::{BenchmarkError, EndpointConfig};
use shared::decimal::Decimal;
use shared::load_tester::{LoadTester, Worker, WorkerAction, WorkerEvent};
use shared::metrics::BenchmarkMetrics;
use shared::sample::RequestMetrics;
use shared::shopify::ShopifyError;

const MS: u64 = 1_000_000;

fn sample(code: u16, millis: u64, size: u64) -> RequestMetrics {
    RequestMetrics::from_response(0, millis * MS, code, Some(size), "/x".to_string())
}

fn figures(metrics: &BenchmarkMetrics) -> Vec<u128> {
    let mut all = vec![
        metrics.total_requests() as u128,
        metrics.successful_requests() as u128,
        metrics.failed_requests() as u128,
        metrics.total_bytes_received(),
        metrics.requests_per_second().thousandths as u128,
        metrics.average_response_time_ms().thousandths as u128,
        metrics.success_rate().thousandths as u128,
        metrics.throughput_mb_per_second().thousandths as u128,
    ];
    for p in [0u64, 10, 25, 50, 75, 90, 95, 99, 100] {
        all.push(
            metrics.percentile_response_time_ms(Decimal { thousandths: p * 1000 }).thousandths
                as u128,
        );
    }
    for entry in metrics.error_counts() {
        all.push(entry.status_code as u128);
        all.push(entry.count as u128);
    }
    all
}

#[test]
fn the_figures_do_not_depend_on_the_order_of_the_samples() {
    let samples = vec![
        sample(200, 12, 100),
        sample(500, 3, 0),
        sample(200, 45, 2_000_000),
        sample(404, 7, 10),
        sample(200, 12, 100),
        sample(0, 30_000, 0),
        sample(201, 1, 5),
    ];
    let mut forward = BenchmarkMetrics::with_start_time("A".to_string(), 0);
    forward.add_requests(samples.clone());
    forward.finalize_at(1_500);
    let mut backward = BenchmarkMetrics::with_start_time("A".to_string(), 0);
    backward.add_requests(samples.iter().rev().cloned().collect());
    backward.finalize_at(1_500);
    let mut rotated = BenchmarkMetrics::with_start_time("A".to_string(), 0);
    let mut turned = samples.clone();
    turned.rotate_left(3);
    rotated.add_requests(turned);
    rotated.finalize_at(1_500);
    assert_eq!(figures(&forward), figures(&backward));
    assert_eq!(figures(&forward), figures(&rotated));
}

#[test]
fn the_figures_do_not_depend_on_the_order_of_the_workers() {
    let workers = vec![
        vec![sample(200, 5, 1), sample(500, 6, 2)],
        vec![sample(200, 50, 3)],
        vec![],
        vec![sample(404, 9, 4), sample(200, 1, 5), sample(200, 2, 6)],
    ];
    let mut reversed = workers.clone();
    reversed.reverse();
    let one = LoadTester::collect("A".to_string(), 0, 900, workers);
    let other = LoadTester::collect("A".to_string(), 0, 900, reversed);
    assert_eq!(figures(&one), figures(&other));
}

#[test]
fn the_samples_of_a_worker_are_chronological() {
    let endpoints = vec![
        EndpointConfig::new("/a", "GET", Decimal { thousandths: 1 }),
        EndpointConfig::new("/b", "GET", Decimal { thousandths: 3 }),
    ];
    let mut worker = Worker::new(1, 250, 3);
    let mut now = 0u64;
    let mut action = worker.advance(&endpoints, now, WorkerEvent::Launched);
    let mut latency = 1u64;
    loop {
        match action {
            WorkerAction::Sleep { millis } => {
                now += millis * MS;
                action = worker.advance(&endpoints, now, WorkerEvent::Woke);
            }
            WorkerAction::Send { .. } => {
                latency = (latency * 7) % 23 + 1;
                now += latency * MS;
                let event = if latency % 5 == 0 {
                    WorkerEvent::Failed
                } else {
                    WorkerEvent::Responded { status_code: 200, content_length: None }
                };
                action = worker.advance(&endpoints, now, event);
            }
            WorkerAction::Stop => break,
        }
    }
    let samples = worker.into_samples();
    assert!(samples.len() > 100);
    assert!(samples[0].start_time >= 250 * MS);
    for sample in &samples {
        assert!(sample.start_time <= sample.end_time);
    }
    for pair in samples.windows(2) {
        assert!(pair[0].end_time <= pair[1].start_time);
        // The pause between two requests.
        assert_eq!(pair[1].start_time - pair[0].end_time, 10 * MS);
    }
    // The last request began within the duration, counted from the end of the delay.
    assert!(samples.last().unwrap().start_time < (250 + 3_000) * MS);
}

#[test]
fn benchmark_errors_say_what_went_wrong() {
    assert_eq!(
        BenchmarkError::HttpError("connection refused".to_string()).message(),
        "HTTP request failed: connection refused"
    );
    assert_eq!(BenchmarkError::Timeout.message(), "Benchmark timeout");
    assert_eq!(BenchmarkError::InvalidConfig.message(), "Invalid benchmark configuration");
    assert_eq!(
        BenchmarkError::ExecutionFailed("worker 3".to_string()).message(),
        "Benchmark execution failed: worker 3"
    );
}

#[test]
fn shop_errors_say_what_went_wrong() {
    assert_eq!(
        ShopifyError::HttpError("timed out".to_string()).message(),
        "HTTP request failed: timed out"
    );
    assert_eq!(ShopifyError::AuthenticationFailed.message(), "Authentication failed");
    assert_eq!(ShopifyError::ProductNotFound.message(), "Product not found");
    assert_eq!(ShopifyError::OrderNotFound.message(), "Order not found");
    assert_eq!(ShopifyError::RateLimitExceeded.message(), "Rate limit exceeded");
    assert_eq!(ShopifyError::InvalidWebhookSignature.message(), "Invalid webhook signature");
    assert_eq!(
        ShopifyError::ApiError("HTTP 500".to_string()).message(),
        "Shopify API error: HTTP 500"
    );
}
