use crate::clock::{is_clock_millis, now_millis};
use crate::decimal::Decimal;
use uuid::Uuid;
use vstd::prelude::*;

verus! {

/// `uuid::Uuid`, an identifier that the library carries and never reads.
#[verifier::external_type_specification]
#[verifier::external_body]
pub struct ExUuid(Uuid);

/// `Uuid`'s `clone`: the same identifier. `Uuid` is `Copy`.
pub assume_specification[ <Uuid as Clone>::clone ](id: &Uuid) -> (copy: Uuid)
    ensures
        copy == *id,
;

/// A registered user. Timestamps are milliseconds since the Unix epoch,
/// here and in every other record.
#[derive(Debug, Clone)]
pub struct User {
    pub id: Uuid,
    pub email: String,
    pub name: String,
    pub created_at: i64,
    pub updated_at: i64,
}

/// What a new user signs up with.
#[derive(Debug, Clone)]
pub struct CreateUserInput {
    pub email: String,
    pub name: String,
    pub password: String,
}

/// What a user logs in with.
#[derive(Debug, Clone)]
pub struct LoginInput {
    pub email: String,
    pub password: String,
}

/// A user together with the token that was issued to them.
#[derive(Debug, Clone)]
pub struct AuthResponse {
    pub token: String,
    pub user: User,
}

/// A product on offer.
#[derive(Debug, Clone)]
pub struct Product {
    pub id: Uuid,
    pub name: String,
    pub description: Option<String>,
    pub price: Decimal,
    pub shopify_id: Option<String>,
    pub created_at: i64,
    pub updated_at: i64,
}

/// What a new product is made from.
#[derive(Debug, Clone)]
pub struct CreateProductInput {
    pub name: String,
    pub description: Option<String>,
    pub price: Decimal,
}

/// An order of one user.
#[derive(Debug, Clone)]
pub struct Order {
    pub id: Uuid,
    pub user_id: Uuid,
    pub total_amount: Decimal,
    pub status: OrderStatus,
    pub shopify_order_id: Option<String>,
    pub created_at: i64,
    pub updated_at: i64,
}

/// Where an order stands.
#[derive(Debug, Clone, Copy, PartialEq, Eq, Structural)]
pub enum OrderStatus {
    Pending,
    Processing,
    Shipped,
    Delivered,
    Cancelled,
}

/// The figures of one finished test of one system.
#[derive(Debug, Clone)]
pub struct BenchmarkResult {
    pub framework: String,
    pub test_name: String,
    pub requests_per_second: Decimal,
    pub average_response_time_ms: Decimal,
    pub p95_response_time_ms: Decimal,
    pub p99_response_time_ms: Decimal,
    pub memory_usage_mb: Decimal,
    pub cpu_usage_percent: Decimal,
    pub timestamp: i64,
}

/// A result as contracts see it: its texts, its figures in thousandths, and
/// its timestamp.
pub struct ResultView {
    pub framework: Seq<char>,
    pub test_name: Seq<char>,
    pub requests_per_second: int,
    pub average_response_time_ms: int,
    pub p95_response_time_ms: int,
    pub p99_response_time_ms: int,
    pub memory_usage_mb: int,
    pub cpu_usage_percent: int,
    pub timestamp: i64,
}

impl View for BenchmarkResult {
    type V = ResultView;

    open spec fn view(&self) -> ResultView {
        ResultView {
            framework: self.framework@,
            test_name: self.test_name@,
            requests_per_second: self.requests_per_second.thousandths as int,
            average_response_time_ms: self.average_response_time_ms.thousandths as int,
            p95_response_time_ms: self.p95_response_time_ms.thousandths as int,
            p99_response_time_ms: self.p99_response_time_ms.thousandths as int,
            memory_usage_mb: self.memory_usage_mb.thousandths as int,
            cpu_usage_percent: self.cpu_usage_percent.thousandths as int,
            timestamp: self.timestamp,
        }
    }
}

/// The envelope of every answer: either data or an error, never both.
#[derive(Debug, Clone)]
pub struct ApiResponse<T> {
    pub success: bool,
    pub data: Option<T>,
    pub error: Option<String>,
    pub timestamp: i64,
}

impl<T> ApiResponse<T> {
    /// An answer that carries `data`, stamped with `timestamp`.
    pub fn success_at(data: T, timestamp: i64) -> (response: ApiResponse<T>)
        ensures
            response.success,
            response.data == Some(data),
            response.error is None,
            response.timestamp == timestamp,
    {
        ApiResponse { success: true, data: Some(data), error: None, timestamp }
    }

    /// An answer that carries an error, stamped with `timestamp`.
    pub fn error_at(error: String, timestamp: i64) -> (response: ApiResponse<T>)
        ensures
            !response.success,
            response.data is None,
            response.error == Some(error),
            response.timestamp == timestamp,
    {
        ApiResponse { success: false, data: None, error: Some(error), timestamp }
    }

    /// An answer that carries `data`, stamped with the current time.
    pub fn success(data: T) -> (response: ApiResponse<T>)
        ensures
            response.success,
            response.data == Some(data),
            response.error is None,
            is_clock_millis(response.timestamp),
    {
        let now = now_millis();
        ApiResponse::success_at(data, now)
    }

    /// An answer that carries an error, stamped with the current time.
    pub fn error(error: String) -> (response: ApiResponse<T>)
        ensures
            !response.success,
            response.data is None,
            response.error == Some(error),
            is_clock_millis(response.timestamp),
    {
        let now = now_millis();
        ApiResponse::error_at(error, now)
    }
}

/// What a server says of its own health.
#[derive(Debug, Clone)]
pub struct HealthCheck {
    pub status: String,
    pub framework: String,
    pub version: String,
    pub uptime_seconds: u64,
    pub database_connected: bool,
    pub shopify_connected: bool,
    pub timestamp: i64,
}

/// One measurement of one endpoint of one system.
#[derive(Debug, Clone)]
pub struct PerformanceMetrics {
    pub framework: String,
    pub endpoint: String,
    pub method: String,
    pub response_time_ms: Decimal,
    pub memory_usage_mb: Decimal,
    pub cpu_usage_percent: Decimal,
    pub active_connections: u32,
    pub timestamp: i64,
}

} // verus!
