use crate::decimal::Decimal;
use vstd::prelude::*;
use vstd::string::StringExecFns;

verus! {

/// What can go wrong with a benchmark.
#[derive(Debug)]
pub enum BenchmarkError {
    /// A request could not be made at all; the text says why.
    HttpError(String),
    Timeout,
    InvalidConfig,
    ExecutionFailed(String),
}

impl BenchmarkError {
    /// What the error says, without the detail that it may carry.
    pub open spec fn headline(self) -> Seq<char> {
        match self {
            BenchmarkError::HttpError(_) => "HTTP request failed: "@,
            BenchmarkError::Timeout => "Benchmark timeout"@,
            BenchmarkError::InvalidConfig => "Invalid benchmark configuration"@,
            BenchmarkError::ExecutionFailed(_) => "Benchmark execution failed: "@,
        }
    }

    /// The detail that the error carries: none for most.
    pub open spec fn detail(self) -> Seq<char> {
        match self {
            BenchmarkError::HttpError(detail) => detail@,
            BenchmarkError::ExecutionFailed(detail) => detail@,
            _ => Seq::empty(),
        }
    }

    /// The error in words: its headline, and its detail after it.
    pub fn message(&self) -> (text: String)
        ensures
            text@ == self.headline() + self.detail(),
    {
        let text = match self {
            BenchmarkError::HttpError(detail) => {
                let mut text = String::from_str("HTTP request failed: ");
                text.append(detail.as_str());
                text
            },
            BenchmarkError::Timeout => String::from_str("Benchmark timeout"),
            BenchmarkError::InvalidConfig => String::from_str("Invalid benchmark configuration"),
            BenchmarkError::ExecutionFailed(detail) => {
                let mut text = String::from_str("Benchmark execution failed: ");
                text.append(detail.as_str());
                text
            },
        };
        assert(text@ =~= self.headline() + self.detail());
        text
    }
}

/// One request header.
#[derive(Debug, Clone)]
pub struct Header {
    pub name: String,
    pub value: String,
}

/// A request template with its share of the traffic.
#[derive(Debug, Clone)]
pub struct EndpointConfig {
    pub path: String,
    pub method: String,
    pub headers: Vec<Header>,
    pub body: Option<String>,
    /// Probability weight for this endpoint; the weights of a list need not
    /// sum to one.
    pub weight: Decimal,
}

/// What to run: where, with how many virtual users, for how long, and with
/// which mix of endpoints.
#[derive(Debug, Clone)]
pub struct BenchmarkConfig {
    pub target_url: String,
    pub concurrent_users: u32,
    pub duration_seconds: u64,
    pub ramp_up_seconds: u64,
    pub endpoints: Vec<EndpointConfig>,
}

/// A request header as a pair of texts.
pub struct HeaderView {
    pub name: Seq<char>,
    pub value: Seq<char>,
}

/// An endpoint as contracts see it: its texts, and its weight in thousandths.
pub struct EndpointView {
    pub path: Seq<char>,
    pub method: Seq<char>,
    pub headers: Seq<HeaderView>,
    pub body: Option<Seq<char>>,
    pub weight: int,
}

/// A configuration as contracts see it.
pub struct ConfigView {
    pub target_url: Seq<char>,
    pub concurrent_users: u32,
    pub duration_seconds: u64,
    pub ramp_up_seconds: u64,
    pub endpoints: Seq<EndpointView>,
}

impl View for Header {
    type V = HeaderView;

    open spec fn view(&self) -> HeaderView {
        HeaderView { name: self.name@, value: self.value@ }
    }
}

impl View for EndpointConfig {
    type V = EndpointView;

    open spec fn view(&self) -> EndpointView {
        EndpointView {
            path: self.path@,
            method: self.method@,
            headers: self.headers@.map_values(|h: Header| h@),
            body: match self.body {
                Some(text) => Some(text@),
                None => None,
            },
            weight: self.weight.thousandths as int,
        }
    }
}

impl View for BenchmarkConfig {
    type V = ConfigView;

    open spec fn view(&self) -> ConfigView {
        ConfigView {
            target_url: self.target_url@,
            concurrent_users: self.concurrent_users,
            duration_seconds: self.duration_seconds,
            ramp_up_seconds: self.ramp_up_seconds,
            endpoints: self.endpoints@.map_values(|e: EndpointConfig| e@),
        }
    }
}

/// Whether no two headers have the same name.
pub open spec fn names_distinct(headers: Seq<HeaderView>) -> bool {
    forall|i: int, j: int|
        0 <= i < j < headers.len() ==> (#[trigger] headers[i]).name != (#[trigger] headers[j]).name
}

/// Whether `index` is where the first header named `name` stands.
pub open spec fn first_named(headers: Seq<HeaderView>, name: Seq<char>, index: int) -> bool {
    &&& 0 <= index < headers.len()
    &&& headers[index].name == name
    &&& forall|j: int| 0 <= j < index ==> (#[trigger] headers[j]).name != name
}

/// The headers with `header` put among them: in the place of the first
/// header of its name, or after all headers where none has its name.
pub open spec fn put_header(headers: Seq<HeaderView>, header: HeaderView) -> Seq<HeaderView> {
    if exists|index: int| first_named(headers, header.name, index) {
        headers.update(choose|index: int| first_named(headers, header.name, index), header)
    } else {
        headers.push(header)
    }
}

/// Putting a header among headers of distinct names leaves the names
/// distinct.
pub proof fn lemma_put_header_keeps_names_distinct(headers: Seq<HeaderView>, header: HeaderView)
    requires
        names_distinct(headers),
    ensures
        names_distinct(put_header(headers, header)),
{
    let after = put_header(headers, header);
    if exists|index: int| first_named(headers, header.name, index) {
        let index = choose|index: int| first_named(headers, header.name, index);
        assert forall|i: int, j: int| 0 <= i < j < after.len() implies (#[trigger] after[i]).name
            != (#[trigger] after[j]).name by {
            assert(headers[i].name != headers[j].name);
        }
    } else {
        assert forall|i: int, j: int| 0 <= i < j < after.len() implies (#[trigger] after[i]).name
            != (#[trigger] after[j]).name by {
            if j < headers.len() {
                assert(headers[i].name != headers[j].name);
            } else {
                assert(!first_named(headers, header.name, i));
                if headers[i].name == header.name {
                    lemma_first_named_exists(headers, header.name, i);
                }
            }
        }
    }
}

/// Where a header has a name, a first header has it.
pub proof fn lemma_first_named_exists(headers: Seq<HeaderView>, name: Seq<char>, index: int)
    requires
        0 <= index < headers.len(),
        headers[index].name == name,
    ensures
        exists|first: int| first_named(headers, name, first),
    decreases index,
{
    if forall|j: int| 0 <= j < index ==> (#[trigger] headers[j]).name != name {
        assert(first_named(headers, name, index));
    } else {
        let j = choose|j: int| 0 <= j < index && (#[trigger] headers[j]).name == name;
        lemma_first_named_exists(headers, name, j);
    }
}

impl Header {
    /// The header `name: value`.
    pub fn new(name: &str, value: &str) -> (header: Header)
        ensures
            header@ == (HeaderView { name: name@, value: value@ }),
    {
        Header { name: String::from_str(name), value: String::from_str(value) }
    }
}

impl EndpointConfig {
    /// An endpoint without headers and without a body.
    pub fn new(path: &str, method: &str, weight: Decimal) -> (endpoint: EndpointConfig)
        ensures
            endpoint@ == (EndpointView {
                path: path@,
                method: method@,
                headers: Seq::empty(),
                body: None,
                weight: weight.thousandths as int,
            }),
            names_distinct(endpoint@.headers),
    {
        let endpoint = EndpointConfig {
            path: String::from_str(path),
            method: String::from_str(method),
            headers: Vec::new(),
            body: None,
            weight,
        };
        assert(endpoint@.headers =~= Seq::empty());
        endpoint
    }

    /// This endpoint with the header `name` set to `value`: in the place of
    /// the first header of that name, or after all headers where there is
    /// none. No name comes to stand twice.
    pub fn with_header(self, name: &str, value: &str) -> (endpoint: EndpointConfig)
        ensures
            endpoint@ == (EndpointView {
                headers: put_header(self@.headers, HeaderView { name: name@, value: value@ }),
                ..self@
            }),
            names_distinct(self@.headers) ==> names_distinct(endpoint@.headers),
    {
        let ghost before = self@.headers;
        let ghost header = HeaderView { name: name@, value: value@ };
        let wanted = name.to_owned();
        let mut endpoint = self;
        let mut i: usize = 0;
        while i < endpoint.headers.len()
            invariant
                endpoint == self,
                before == self@.headers,
                header == (HeaderView { name: name@, value: value@ }),
                wanted@ == name@,
                i <= endpoint.headers@.len(),
                forall|j: int| 0 <= j < i ==> (#[trigger] self@.headers[j]).name != name@,
            decreases endpoint.headers@.len() - i,
        {
            assert(before[i as int] == endpoint.headers@[i as int]@);
            if endpoint.headers[i].name == wanted {
                assert(first_named(before, name@, i as int));
                assert forall|k: int| first_named(before, name@, k) implies k == i by {
                    if k < i {
                        assert(before[k].name != name@);
                    } else if i < k {
                        assert(before[i as int].name == name@);
                    }
                }
                let ghost listed = endpoint.headers@;
                endpoint.headers.set(i, Header::new(name, value));
                assert(endpoint.headers@ =~= listed.update(i as int, endpoint.headers@[i as int]));
                assert(endpoint@.headers =~= before.update(i as int, header));
                assert(header.name == name@);
                let ghost chosen = choose|index: int| first_named(before, header.name, index);
                assert(first_named(before, header.name, i as int));
                assert(first_named(before, header.name, chosen));
                assert(chosen == i);
                assert(put_header(before, header) == before.update(i as int, header));
                proof {
                    if names_distinct(before) {
                        lemma_put_header_keeps_names_distinct(before, header);
                    }
                }
                return endpoint;
            }
            i = i + 1;
        }
        assert forall|k: int| !first_named(before, name@, k) by {
            if 0 <= k < before.len() {
                assert(before[k].name != name@);
            }
        }
        endpoint.headers.push(Header::new(name, value));
        assert(endpoint@.headers =~= before.push(header));
        proof {
            if names_distinct(before) {
                lemma_put_header_keeps_names_distinct(before, header);
            }
        }
        endpoint
    }

    /// This endpoint with `body` as its body.
    pub fn with_body(self, body: &str) -> (endpoint: EndpointConfig)
        ensures
            endpoint@ == (EndpointView { body: Some(body@), ..self@ }),
    {
        let mut endpoint = self;
        endpoint.body = Some(String::from_str(body));
        endpoint
    }
}

/// The sum of the weights of the first `n` endpoints, in thousandths.
pub open spec fn cumulative_weight(endpoints: Seq<EndpointConfig>, n: int) -> int
    decreases n,
{
    if n <= 0 {
        0
    } else {
        cumulative_weight(endpoints, n - 1) + endpoints[n - 1].weight.thousandths as int
    }
}

/// The sum of all weights, in thousandths.
pub open spec fn total_weight(endpoints: Seq<EndpointConfig>) -> int {
    cumulative_weight(endpoints, endpoints.len() as int)
}

/// Cumulative weights grow with the number of endpoints counted.
pub proof fn lemma_cumulative_weight_monotonic(endpoints: Seq<EndpointConfig>, i: int, j: int)
    requires
        0 <= i <= j,
    ensures
        0 <= cumulative_weight(endpoints, i) <= cumulative_weight(endpoints, j),
    decreases j,
{
    if j > 0 {
        if i < j {
            lemma_cumulative_weight_monotonic(endpoints, i, j - 1);
        } else {
            lemma_cumulative_weight_monotonic(endpoints, i - 1, j - 1);
        }
    }
}

/// No weight exceeds `u64::MAX` thousandths.
pub proof fn lemma_cumulative_weight_bound(endpoints: Seq<EndpointConfig>, n: int)
    requires
        0 <= n,
    ensures
        cumulative_weight(endpoints, n) <= n * 0xffff_ffff_ffff_ffff,
    decreases n,
{
    if n > 0 {
        lemma_cumulative_weight_bound(endpoints, n - 1);
        assert((n - 1) * 0xffff_ffff_ffff_ffff + 0xffff_ffff_ffff_ffff == n
            * 0xffff_ffff_ffff_ffff) by (nonlinear_arith);
    }
}

/// The sum of all weights, in thousandths.
pub fn sum_weights(endpoints: &[EndpointConfig]) -> (total: u128)
    ensures
        total == total_weight(endpoints@),
{
    let mut total: u128 = 0;
    let mut i: usize = 0;
    while i < endpoints.len()
        invariant
            i <= endpoints.len(),
            total == cumulative_weight(endpoints@, i as int),
        decreases endpoints.len() - i,
    {
        proof {
            lemma_cumulative_weight_bound(endpoints@, i + 1);
            assert((i + 1) * 0xffff_ffff_ffff_ffff <= 0xffff_ffff_ffff_ffff
                * 0xffff_ffff_ffff_ffff) by (nonlinear_arith)
                requires
                    i + 1 <= 0xffff_ffff_ffff_ffff,
            ;
        }
        total = total + endpoints[i].weight.thousandths as u128;
        i = i + 1;
    }
    total
}

/// The first user starts at once, no user starts before one with a lower
/// index, and every user starts within the ramp-up window.
pub proof fn lemma_start_delays_are_staggered(config: BenchmarkConfig, earlier: u32, later: u32)
    requires
        config.concurrent_users > 0,
        earlier <= later < config.concurrent_users,
    ensures
        config.spec_start_delay_millis(0) == 0,
        0 <= config.spec_start_delay_millis(earlier) <= config.spec_start_delay_millis(later),
        config.spec_start_delay_millis(later) <= config.ramp_up_seconds * 1000,
{
    let window = config.ramp_up_seconds * 1000;
    let users = config.concurrent_users as int;
    let step = window / users;
    vstd::arithmetic::div_mod::lemma_fundamental_div_mod(window, users);
    assert(0 <= step) by (nonlinear_arith)
        requires
            step == window / users,
            0 <= window,
            users > 0,
    ;
    assert(step * earlier <= step * later) by (nonlinear_arith)
        requires
            0 <= step,
            earlier <= later,
    ;
    assert(0 <= step * earlier) by (nonlinear_arith)
        requires
            0 <= step,
            0 <= earlier,
    ;
    assert(step * later <= users * step) by (nonlinear_arith)
        requires
            0 <= step,
            later <= users,
    ;
}

impl Default for BenchmarkConfig {
    /// A hundred users for a minute, ramped up over ten seconds, against a
    /// server on this machine, with a mix of four endpoints.
    fn default() -> (config: BenchmarkConfig)
        ensures
            config@ == (ConfigView {
                target_url: "http://localhost:3000"@,
                concurrent_users: 100,
                duration_seconds: 60,
                ramp_up_seconds: 10,
                endpoints: seq![
                    EndpointView {
                        path: "/health"@,
                        method: "GET"@,
                        headers: Seq::empty(),
                        body: None,
                        weight: 300,
                    },
                    EndpointView {
                        path: "/api/products"@,
                        method: "GET"@,
                        headers: Seq::empty(),
                        body: None,
                        weight: 400,
                    },
                    EndpointView {
                        path: "/api/users/me"@,
                        method: "GET"@,
                        headers: seq![
                            HeaderView { name: "Authorization"@, value: "Bearer demo-token"@ },
                        ],
                        body: None,
                        weight: 200,
                    },
                    EndpointView {
                        path: "/graphql"@,
                        method: "POST"@,
                        headers: seq![
                            HeaderView { name: "Content-Type"@, value: "application/json"@ },
                        ],
                        body: Some("{\"query\":\"query { health }\"}"@),
                        weight: 100,
                    },
                ],
            }),
    {
        let mut endpoints: Vec<EndpointConfig> = Vec::new();
        endpoints.push(EndpointConfig::new("/health", "GET", Decimal::from_thousandths(300)));
        endpoints.push(EndpointConfig::new("/api/products", "GET", Decimal::from_thousandths(400)));
        endpoints.push(
            EndpointConfig::new(
                "/api/users/me",
                "GET",
                Decimal::from_thousandths(200),
            ).with_header("Authorization", "Bearer demo-token"),
        );
        endpoints.push(
            EndpointConfig::new("/graphql", "POST", Decimal::from_thousandths(100)).with_header(
                "Content-Type",
                "application/json",
            ).with_body("{\"query\":\"query { health }\"}"),
        );
        let config = BenchmarkConfig {
            target_url: String::from_str("http://localhost:3000"),
            concurrent_users: 100,
            duration_seconds: 60,
            ramp_up_seconds: 10,
            endpoints,
        };
        assert(config@.endpoints[2].headers =~= seq![
            HeaderView { name: "Authorization"@, value: "Bearer demo-token"@ },
        ]);
        assert(config@.endpoints[3].headers =~= seq![
            HeaderView { name: "Content-Type"@, value: "application/json"@ },
        ]);
        assert(config@.endpoints =~= seq![
            EndpointView {
                path: "/health"@,
                method: "GET"@,
                headers: Seq::empty(),
                body: None,
                weight: 300,
            },
            EndpointView {
                path: "/api/products"@,
                method: "GET"@,
                headers: Seq::empty(),
                body: None,
                weight: 400,
            },
            EndpointView {
                path: "/api/users/me"@,
                method: "GET"@,
                headers: seq![HeaderView { name: "Authorization"@, value: "Bearer demo-token"@ }],
                body: None,
                weight: 200,
            },
            EndpointView {
                path: "/graphql"@,
                method: "POST"@,
                headers: seq![HeaderView { name: "Content-Type"@, value: "application/json"@ }],
                body: Some("{\"query\":\"query { health }\"}"@),
                weight: 100,
            },
        ]);
        config
    }
}

impl BenchmarkConfig {
    /// A configuration can be run when it has an endpoint, a user, some
    /// weight to select by, and a ramp-up whose milliseconds fit a `u64`.
    pub open spec fn valid(&self) -> bool {
        &&& self.endpoints@.len() > 0
        &&& self.concurrent_users > 0
        &&& total_weight(self.endpoints@) > 0
        &&& self.ramp_up_seconds * 1000 <= u64::MAX
    }

    /// `Ok` for a configuration that can be run, `InvalidConfig` for any
    /// other.
    pub fn validate(&self) -> (checked: Result<(), BenchmarkError>)
        ensures
            checked is Ok <==> self.valid(),
            checked matches Err(e) ==> e is InvalidConfig,
    {
        if self.endpoints.len() == 0 || self.concurrent_users == 0 {
            return Err(BenchmarkError::InvalidConfig);
        }
        if self.ramp_up_seconds > u64::MAX / 1000 {
            return Err(BenchmarkError::InvalidConfig);
        }
        if sum_weights(self.endpoints.as_slice()) == 0 {
            return Err(BenchmarkError::InvalidConfig);
        }
        Ok(())
    }

    /// The milliseconds that virtual user `user_id` waits before its first
    /// request: the ramp-up window divided evenly among the users, times the
    /// user's index.
    pub open spec fn spec_start_delay_millis(&self, user_id: u32) -> int {
        (self.ramp_up_seconds * 1000 / (self.concurrent_users as int)) * user_id
    }

    pub fn start_delay_millis(&self, user_id: u32) -> (delay: u64)
        requires
            self.valid(),
            user_id < self.concurrent_users,
        ensures
            delay == self.spec_start_delay_millis(user_id),
            delay <= self.ramp_up_seconds * 1000,
    {
        let window: u64 = self.ramp_up_seconds * 1000;
        let step: u64 = window / (self.concurrent_users as u64);
        proof {
            let w = window as int;
            let n = self.concurrent_users as int;
            let s = step as int;
            vstd::arithmetic::div_mod::lemma_fundamental_div_mod(w, n);
            assert(s * user_id <= s * n) by (nonlinear_arith)
                requires
                    user_id <= n,
                    s >= 0,
            ;
            assert(n * s <= w);
            assert(s * n == n * s) by (nonlinear_arith);
        }
        step * (user_id as u64)
    }
}

} // verus!
