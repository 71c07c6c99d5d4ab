use shared::config::{BenchmarkConfig, BenchmarkError, EndpointConfig, Header};
use shared::decimal::Decimal;
use shared::load_tester::{parse_method, plan_request, HttpMethod};
use shared::scenarios::{
    create_graphql_config, create_health_config, create_mixed_config, create_rest_config,
    framework_scenarios, parse_report_format, ReportFormat,
};

#[test]
fn test_config_creation() {
    let config = create_health_config("http://localhost:3000", 100, 60, 10);
    assert_eq!(config.target_url, "http://localhost:3000");
    assert_eq!(config.concurrent_users, 100);
    assert_eq!(config.duration_seconds, 60);
    assert_eq!(config.ramp_up_seconds, 10);
    assert_eq!(config.endpoints.len(), 1);
    assert_eq!(config.endpoints[0].path, "/health");
}

#[test]
fn test_rest_config() {
    let config = create_rest_config("http://localhost:3000", 50, 30, 5);
    assert_eq!(config.endpoints.len(), 3);
    assert!(config.endpoints.iter().any(|e| e.path == "/api/products" && e.method == "GET"));
    assert!(config.endpoints.iter().any(|e| e.path == "/api/products" && e.method == "POST"));
    assert!(config.endpoints.iter().any(|e| e.path == "/api/auth/login"));
}

#[test]
fn test_graphql_config() {
    let config = create_graphql_config("http://localhost:3000", 75, 45, 8);
    assert_eq!(config.endpoints.len(), 3);
    assert!(config.endpoints.iter().all(|e| e.path == "/graphql" && e.method == "POST"));
    assert!(config.endpoints.iter().all(|e| e.body.is_some()));
}

#[test]
fn rest_config_weights_and_bodies() {
    let config = create_rest_config("http://h", 1, 1, 0);
    assert_eq!(config.endpoints[0].weight, Decimal { thousandths: 600 });
    assert_eq!(config.endpoints[1].weight, Decimal { thousandths: 200 });
    assert_eq!(config.endpoints[2].weight, Decimal { thousandths: 200 });
    assert!(config.endpoints[0].headers.is_empty());
    assert_eq!(config.endpoints[1].headers.len(), 1);
    assert_eq!(config.endpoints[1].headers[0].name, "Content-Type");
    assert_eq!(config.endpoints[1].headers[0].value, "application/json");
    assert_eq!(
        config.endpoints[2].body.as_deref(),
        Some(r#"{"email":"benchmark@example.com","password":"BenchmarkPass123!"}"#)
    );
}

#[test]
fn mixed_config_has_four_endpoints() {
    let config = create_mixed_config("http://h", 3, 4, 5);
    let paths: Vec<&str> = config.endpoints.iter().map(|e| e.path.as_str()).collect();
    assert_eq!(paths, vec!["/health", "/api/products", "/graphql", "/metrics"]);
    let weights: Vec<u64> = config.endpoints.iter().map(|e| e.weight.thousandths).collect();
    assert_eq!(weights, vec![200, 300, 300, 200]);
    assert_eq!(
        config.endpoints[2].body.as_deref(),
        Some(r#"{"query":"query { products { id name } }"}"#)
    );
}

#[test]
fn default_config_matches_the_documented_mix() {
    let config = BenchmarkConfig::default();
    assert_eq!(config.target_url, "http://localhost:3000");
    assert_eq!(config.concurrent_users, 100);
    assert_eq!(config.duration_seconds, 60);
    assert_eq!(config.ramp_up_seconds, 10);
    assert_eq!(config.endpoints.len(), 4);
    let weights: Vec<u64> = config.endpoints.iter().map(|e| e.weight.thousandths).collect();
    assert_eq!(weights, vec![300, 400, 200, 100]);
    assert_eq!(config.endpoints[2].headers[0].name, "Authorization");
    assert_eq!(config.endpoints[2].headers[0].value, "Bearer demo-token");
    assert_eq!(config.endpoints[3].method, "POST");
    assert_eq!(config.endpoints[3].body.as_deref(), Some(r#"{"query":"query { health }"}"#));
    assert!(config.validate().is_ok());
}

#[test]
fn scenarios_come_in_order() {
    let scenarios = framework_scenarios("http://x", 7, 8, 9);
    let names: Vec<&str> = scenarios.iter().map(|s| s.name.as_str()).collect();
    assert_eq!(names, vec!["Health Check", "REST API", "GraphQL", "Mixed Load"]);
    for scenario in &scenarios {
        assert_eq!(scenario.config.target_url, "http://x");
        assert_eq!(scenario.config.concurrent_users, 7);
        assert_eq!(scenario.config.duration_seconds, 8);
        assert_eq!(scenario.config.ramp_up_seconds, 9);
    }
}

fn config_with(endpoints: Vec<EndpointConfig>, users: u32, ramp_up: u64) -> BenchmarkConfig {
    BenchmarkConfig {
        target_url: "http://localhost:1".to_string(),
        concurrent_users: users,
        duration_seconds: 2,
        ramp_up_seconds: ramp_up,
        endpoints,
    }
}

#[test]
fn validation_rejects_an_empty_endpoint_list() {
    let config = config_with(vec![], 5, 0);
    assert!(matches!(config.validate(), Err(BenchmarkError::InvalidConfig)));
}

#[test]
fn validation_rejects_zero_users() {
    let config =
        config_with(vec![EndpointConfig::new("/health", "GET", Decimal { thousandths: 1000 })], 0, 0);
    assert!(matches!(config.validate(), Err(BenchmarkError::InvalidConfig)));
}

#[test]
fn validation_rejects_zero_total_weight() {
    let config = config_with(
        vec![
            EndpointConfig::new("/a", "GET", Decimal { thousandths: 0 }),
            EndpointConfig::new("/b", "GET", Decimal { thousandths: 0 }),
        ],
        5,
        0,
    );
    assert!(matches!(config.validate(), Err(BenchmarkError::InvalidConfig)));
}

#[test]
fn validation_rejects_a_ramp_up_that_overflows() {
    let config = config_with(
        vec![EndpointConfig::new("/a", "GET", Decimal { thousandths: 1 })],
        5,
        u64::MAX / 1000 + 1,
    );
    assert!(matches!(config.validate(), Err(BenchmarkError::InvalidConfig)));
    let config = config_with(
        vec![EndpointConfig::new("/a", "GET", Decimal { thousandths: 1 })],
        5,
        u64::MAX / 1000,
    );
    assert!(config.validate().is_ok());
}

#[test]
fn start_delay_staggers_users_over_the_ramp_up() {
    let config =
        config_with(vec![EndpointConfig::new("/a", "GET", Decimal { thousandths: 1 })], 100, 10);
    assert_eq!(config.start_delay_millis(0), 0);
    assert_eq!(config.start_delay_millis(1), 100);
    assert_eq!(config.start_delay_millis(50), 5000);
    assert_eq!(config.start_delay_millis(99), 9900);
    let config =
        config_with(vec![EndpointConfig::new("/a", "GET", Decimal { thousandths: 1 })], 3, 1);
    // 1000 ms over 3 users: 333 ms each, rounded down before multiplying.
    assert_eq!(config.start_delay_millis(2), 666);
}

#[test]
fn method_names_fall_back_to_get() {
    assert_eq!(parse_method("GET"), HttpMethod::Get);
    assert_eq!(parse_method("POST"), HttpMethod::Post);
    assert_eq!(parse_method("PUT"), HttpMethod::Put);
    assert_eq!(parse_method("DELETE"), HttpMethod::Delete);
    assert_eq!(parse_method("PATCH"), HttpMethod::Get);
    assert_eq!(parse_method("post"), HttpMethod::Get);
    assert_eq!(parse_method(""), HttpMethod::Get);
}

#[test]
fn a_plan_keeps_the_body_even_for_get() {
    let endpoint = EndpointConfig {
        path: "/search".to_string(),
        method: "GET".to_string(),
        headers: vec![
            Header::new("Accept", "text/plain"),
            Header { name: "X-Trace".to_string(), value: "1".to_string() },
        ],
        body: Some("payload".to_string()),
        weight: Decimal { thousandths: 500 },
    };
    let plan = plan_request("http://localhost:3000", &endpoint);
    assert_eq!(plan.method, HttpMethod::Get);
    assert_eq!(plan.url, "http://localhost:3000/search");
    assert_eq!(plan.headers.len(), 2);
    assert_eq!(plan.headers[0].name, "Accept");
    assert_eq!(plan.headers[1].value, "1");
    assert_eq!(plan.body.as_deref(), Some("payload"));
}

#[test]
fn report_formats_by_name() {
    assert_eq!(parse_report_format("markdown"), Some(ReportFormat::Markdown));
    assert_eq!(parse_report_format("md"), Some(ReportFormat::Markdown));
    assert_eq!(parse_report_format("json"), Some(ReportFormat::Json));
    assert_eq!(parse_report_format("html"), Some(ReportFormat::Html));
    assert_eq!(parse_report_format("pdf"), None);
    assert_eq!(parse_report_format("HTML"), None);
}

#[test]
fn decimals_from_parts() {
    assert_eq!(Decimal::from_parts(15420, 500), Some(Decimal { thousandths: 15_420_500 }));
    assert_eq!(Decimal::from_parts(0, 0), Some(Decimal::zero()));
    assert_eq!(Decimal::from_parts(1, 1000), None);
    assert_eq!(Decimal::from_parts(u64::MAX / 1000, 615), Some(Decimal { thousandths: u64::MAX }));
    assert_eq!(Decimal::from_parts(u64::MAX / 1000, 616), None);
    assert_eq!(Decimal::from_parts(u64::MAX, 0), None);
    let d = Decimal::from_thousandths(12_345);
    assert_eq!(d.whole(), 12);
    assert_eq!(d.fraction(), 345);
    assert_eq!(Decimal::saturating_from_thousandths(u128::MAX).thousandths, u64::MAX);
    assert_eq!(Decimal::saturating_from_thousandths(7).thousandths, 7);
}

#[test]
fn a_header_set_twice_stands_once() {
    let endpoint = EndpointConfig::new("/x", "POST", Decimal { thousandths: 1 })
        .with_header("Content-Type", "text/plain")
        .with_header("Accept", "*/*")
        .with_header("Content-Type", "application/json")
        .with_header("X-Trace", "1")
        .with_header("Accept", "text/html");
    let headers: Vec<(&str, &str)> =
        endpoint.headers.iter().map(|h| (h.name.as_str(), h.value.as_str())).collect();
    assert_eq!(
        headers,
        vec![("Content-Type", "application/json"), ("Accept", "text/html"), ("X-Trace", "1")]
    );
    // Names are told apart letter by letter.
    let endpoint = endpoint.with_header("content-type", "x");
    assert_eq!(endpoint.headers.len(), 4);
    assert_eq!(endpoint.headers[3].name, "content-type");
    assert_eq!(endpoint.headers[0].value, "application/json");
    assert_eq!(endpoint.path, "/x");
    assert_eq!(endpoint.method, "POST");
    assert!(endpoint.body.is_none());
    assert_eq!(endpoint.weight, Decimal { thousandths: 1 });
}

#[test]
fn scenarios_hold_their_configurations() {
    let scenarios = framework_scenarios("http://x", 7, 8, 9);
    let paths: Vec<Vec<&str>> = scenarios
        .iter()
        .map(|s| s.config.endpoints.iter().map(|e| e.path.as_str()).collect())
        .collect();
    assert_eq!(
        paths,
        vec![
            vec!["/health"],
            vec!["/api/products", "/api/products", "/api/auth/login"],
            vec!["/graphql", "/graphql", "/graphql"],
            vec!["/health", "/api/products", "/graphql", "/metrics"],
        ]
    );
    let weights: Vec<Vec<u64>> = scenarios
        .iter()
        .map(|s| s.config.endpoints.iter().map(|e| e.weight.thousandths).collect())
        .collect();
    assert_eq!(
        weights,
        vec![vec![1000], vec![600, 200, 200], vec![300, 400, 300], vec![200, 300, 300, 200]]
    );
    assert_eq!(
        scenarios[2].config.endpoints[1].body.as_deref(),
        Some(r#"{"query":"query { products { id name price } }"}"#)
    );
    assert_eq!(scenarios[1].config.endpoints[1].method, "POST");
}
