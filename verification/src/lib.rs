//! A load-testing engine with its bookkeeping verified.
//!
//! The engine drives virtual users against an HTTP server according to a
//! weighted mix of endpoints ([`config`], [`selection`], [`load_tester`]),
//! gathers one sample for each request ([`sample`]), reduces the samples to
//! throughput and latency figures ([`metrics`], [`permutation`], [`sorting`],
//! [`run`]),
//! and compares the figures of two systems in a report ([`comparison`],
//! [`report`], [`text`]). Every figure that a float would hold is a
//! [`decimal::Decimal`], a count of thousandths, so that each contract is
//! exact.
//!
//! Around the engine stand the records and rules of the servers that it is
//! pointed at ([`models`], [`auth`], [`shopify`], [`graphql`]) and the
//! scenarios that it runs against them ([`scenarios`]).
//!
//! Nothing here touches the network. The caller performs what a
//! [`load_tester::WorkerAction`] asks for and reports back what happened as
//! a [`load_tester::WorkerEvent`].
//!
//! A function that reads the clock does so through `chrono::Utc::now`, which
//! panics on a machine whose clock stands before 1970. Each such function has
//! a twin that takes the reading as an argument and reads no clock:
//! `with_start_time` beside `new`, `finalize_at` beside `finalize`,
//! `to_benchmark_result_at`, `average_metrics`, `render_comparison_report`,
//! `render_html_report`, `success_at`, `error_at`, `issued_at`,
//! `is_expired_at`, `stamped` and `create_product_at`.

pub mod auth;
pub mod clock;
pub mod comparison;
pub mod config;
pub mod decimal;
pub mod graphql;
pub mod load_tester;
pub mod metrics;
pub mod models;
pub mod permutation;
pub mod report;
pub mod run;
pub mod sample;
pub mod scenarios;
pub mod selection;
pub mod shopify;
pub mod sorting;
pub mod text;
