use crate::config::{BenchmarkConfig, ConfigView, EndpointConfig, EndpointView, HeaderView};
use crate::decimal::Decimal;
use vstd::prelude::*;
use vstd::string::StringExecFns;

verus! {

/// The header that announces a JSON body.
pub open spec fn json_header() -> HeaderView {
    HeaderView { name: "Content-Type"@, value: "application/json"@ }
}

/// A `GET` endpoint without headers or body.
pub open spec fn get_endpoint(path: Seq<char>, weight: int) -> EndpointView {
    EndpointView { path, method: "GET"@, headers: Seq::empty(), body: None, weight }
}

/// A `POST` endpoint with a JSON body.
pub open spec fn post_json_endpoint(path: Seq<char>, body: Seq<char>, weight: int) -> EndpointView {
    EndpointView { path, method: "POST"@, headers: seq![json_header()], body: Some(body), weight }
}

/// The configuration with these settings and these endpoints.
pub open spec fn config_view(
    base_url: Seq<char>,
    users: u32,
    duration: u64,
    ramp_up: u64,
    endpoints: Seq<EndpointView>,
) -> ConfigView {
    ConfigView {
        target_url: base_url,
        concurrent_users: users,
        duration_seconds: duration,
        ramp_up_seconds: ramp_up,
        endpoints,
    }
}

/// The endpoints of the health scenario: the health check alone.
pub open spec fn health_endpoints() -> Seq<EndpointView> {
    seq![get_endpoint("/health"@, 1000)]
}

/// The endpoints of the REST scenario: listing products, creating one, and
/// logging in.
pub open spec fn rest_endpoints() -> Seq<EndpointView> {
    seq![
        get_endpoint("/api/products"@, 600),
        post_json_endpoint(
            "/api/products"@,
            "{\"name\":\"Benchmark Product\",\"description\":\"Created during benchmark\",\"price\":99.99}"@,
            200,
        ),
        post_json_endpoint(
            "/api/auth/login"@,
            "{\"email\":\"benchmark@example.com\",\"password\":\"BenchmarkPass123!\"}"@,
            200,
        ),
    ]
}

/// The endpoints of the GraphQL scenario: three queries.
pub open spec fn graphql_endpoints() -> Seq<EndpointView> {
    seq![
        post_json_endpoint("/graphql"@, "{\"query\":\"query { health }\"}"@, 300),
        post_json_endpoint(
            "/graphql"@,
            "{\"query\":\"query { products { id name price } }\"}"@,
            400,
        ),
        post_json_endpoint("/graphql"@, "{\"query\":\"query { users { id email name } }\"}"@, 300),
    ]
}

/// The endpoints of the mixed scenario: health check, REST, GraphQL and
/// metrics.
pub open spec fn mixed_endpoints() -> Seq<EndpointView> {
    seq![
        get_endpoint("/health"@, 200),
        get_endpoint("/api/products"@, 300),
        post_json_endpoint("/graphql"@, "{\"query\":\"query { products { id name } }\"}"@, 300),
        get_endpoint("/metrics"@, 200),
    ]
}

/// A `GET` endpoint without headers or body.
fn get(path: &str, weight: u64) -> (endpoint: EndpointConfig)
    ensures
        endpoint@ == get_endpoint(path@, weight as int),
{
    EndpointConfig::new(path, "GET", Decimal::from_thousandths(weight))
}

/// A `POST` endpoint with a JSON body.
fn post_json(path: &str, body: &str, weight: u64) -> (endpoint: EndpointConfig)
    ensures
        endpoint@ == post_json_endpoint(path@, body@, weight as int),
{
    let endpoint = EndpointConfig::new(
        path,
        "POST",
        Decimal::from_thousandths(weight),
    ).with_header("Content-Type", "application/json").with_body(body);
    assert(endpoint@.headers =~= seq![json_header()]);
    endpoint
}

/// The configuration with these settings and these endpoints.
fn config_with(
    base_url: &str,
    users: u32,
    duration: u64,
    ramp_up: u64,
    endpoints: Vec<EndpointConfig>,
) -> (config: BenchmarkConfig)
    ensures
        config@ == (ConfigView {
            target_url: base_url@,
            concurrent_users: users,
            duration_seconds: duration,
            ramp_up_seconds: ramp_up,
            endpoints: endpoints@.map_values(|e: EndpointConfig| e@),
        }),
        config.endpoints == endpoints,
{
    BenchmarkConfig {
        target_url: String::from_str(base_url),
        concurrent_users: users,
        duration_seconds: duration,
        ramp_up_seconds: ramp_up,
        endpoints,
    }
}

/// The health check alone.
pub fn create_health_config(base_url: &str, users: u32, duration: u64, ramp_up: u64) -> (config:
    BenchmarkConfig)
    ensures
        config@ == config_view(base_url@, users, duration, ramp_up, health_endpoints()),
{
    let mut endpoints: Vec<EndpointConfig> = Vec::new();
    endpoints.push(get("/health", 1000));
    let config = config_with(base_url, users, duration, ramp_up, endpoints);
    assert(config@.endpoints =~= health_endpoints());
    config
}

/// The REST interface: listing products, creating one, and logging in.
pub fn create_rest_config(base_url: &str, users: u32, duration: u64, ramp_up: u64) -> (config:
    BenchmarkConfig)
    ensures
        config@ == config_view(base_url@, users, duration, ramp_up, rest_endpoints()),
{
    let mut endpoints: Vec<EndpointConfig> = Vec::new();
    endpoints.push(get("/api/products", 600));
    endpoints.push(
        post_json(
            "/api/products",
            "{\"name\":\"Benchmark Product\",\"description\":\"Created during benchmark\",\"price\":99.99}",
            200,
        ),
    );
    endpoints.push(
        post_json(
            "/api/auth/login",
            "{\"email\":\"benchmark@example.com\",\"password\":\"BenchmarkPass123!\"}",
            200,
        ),
    );
    let config = config_with(base_url, users, duration, ramp_up, endpoints);
    assert(config@.endpoints =~= rest_endpoints());
    config
}

/// The GraphQL interface: three queries.
pub fn create_graphql_config(base_url: &str, users: u32, duration: u64, ramp_up: u64) -> (config:
    BenchmarkConfig)
    ensures
        config@ == config_view(base_url@, users, duration, ramp_up, graphql_endpoints()),
{
    let mut endpoints: Vec<EndpointConfig> = Vec::new();
    endpoints.push(post_json("/graphql", "{\"query\":\"query { health }\"}", 300));
    endpoints.push(
        post_json("/graphql", "{\"query\":\"query { products { id name price } }\"}", 400),
    );
    endpoints.push(post_json("/graphql", "{\"query\":\"query { users { id email name } }\"}", 300));
    let config = config_with(base_url, users, duration, ramp_up, endpoints);
    assert(config@.endpoints =~= graphql_endpoints());
    config
}

/// A mix of health check, REST, GraphQL and metrics.
pub fn create_mixed_config(base_url: &str, users: u32, duration: u64, ramp_up: u64) -> (config:
    BenchmarkConfig)
    ensures
        config@ == config_view(base_url@, users, duration, ramp_up, mixed_endpoints()),
{
    let mut endpoints: Vec<EndpointConfig> = Vec::new();
    endpoints.push(get("/health", 200));
    endpoints.push(get("/api/products", 300));
    endpoints.push(post_json("/graphql", "{\"query\":\"query { products { id name } }\"}", 300));
    endpoints.push(get("/metrics", 200));
    let config = config_with(base_url, users, duration, ramp_up, endpoints);
    assert(config@.endpoints =~= mixed_endpoints());
    config
}

/// The forms in which a report can be written.
#[derive(Clone, Copy, Debug, PartialEq, Eq, Structural)]
pub enum ReportFormat {
    Markdown,
    Json,
    Html,
}

/// The format that a name stands for: `markdown` or `md`, `json`, `html`.
pub open spec fn format_named(name: Seq<char>) -> Option<ReportFormat> {
    if name == "markdown"@ || name == "md"@ {
        Some(ReportFormat::Markdown)
    } else if name == "json"@ {
        Some(ReportFormat::Json)
    } else if name == "html"@ {
        Some(ReportFormat::Html)
    } else {
        None
    }
}

/// The format that `name` stands for, `None` for a name that stands for
/// none.
pub fn parse_report_format(name: &str) -> (format: Option<ReportFormat>)
    ensures
        format == format_named(name@),
{
    let owned = name.to_owned();
    if owned == "markdown".to_owned() || owned == "md".to_owned() {
        Some(ReportFormat::Markdown)
    } else if owned == "json".to_owned() {
        Some(ReportFormat::Json)
    } else if owned == "html".to_owned() {
        Some(ReportFormat::Html)
    } else {
        None
    }
}

/// The names of the four scenarios, in the order in which they are run.
pub open spec fn scenario_names() -> Seq<Seq<char>> {
    seq!["Health Check"@, "REST API"@, "GraphQL"@, "Mixed Load"@]
}

/// A named scenario.
#[derive(Debug)]
pub struct Scenario {
    pub name: String,
    pub config: BenchmarkConfig,
}

/// The four scenarios run against one system, in order: health check, REST,
/// GraphQL, mixed load.
pub fn framework_scenarios(base_url: &str, users: u32, duration: u64, ramp_up: u64) -> (scenarios:
    Vec<Scenario>)
    ensures
        scenarios@.len() == 4,
        forall|i: int| 0 <= i < 4 ==> (#[trigger] scenarios@[i]).name@ == scenario_names()[i],
        scenarios@[0].config@ == config_view(
            base_url@,
            users,
            duration,
            ramp_up,
            health_endpoints(),
        ),
        scenarios@[1].config@ == config_view(base_url@, users, duration, ramp_up, rest_endpoints()),
        scenarios@[2].config@ == config_view(
            base_url@,
            users,
            duration,
            ramp_up,
            graphql_endpoints(),
        ),
        scenarios@[3].config@ == config_view(
            base_url@,
            users,
            duration,
            ramp_up,
            mixed_endpoints(),
        ),
{
    let mut scenarios: Vec<Scenario> = Vec::new();
    scenarios.push(
        Scenario {
            name: String::from_str("Health Check"),
            config: create_health_config(base_url, users, duration, ramp_up),
        },
    );
    scenarios.push(
        Scenario {
            name: String::from_str("REST API"),
            config: create_rest_config(base_url, users, duration, ramp_up),
        },
    );
    scenarios.push(
        Scenario {
            name: String::from_str("GraphQL"),
            config: create_graphql_config(base_url, users, duration, ramp_up),
        },
    );
    scenarios.push(
        Scenario {
            name: String::from_str("Mixed Load"),
            config: create_mixed_config(base_url, users, duration, ramp_up),
        },
    );
    scenarios
}

} // verus!
