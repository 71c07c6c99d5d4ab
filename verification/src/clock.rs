use vstd::prelude::*;

verus! {

/// Whether `seconds` can be a reading of the clock in seconds since the Unix
/// epoch: it is not before the epoch, and it lies within the days that a date
/// can count, which are fewer than `2^31`.
pub open spec fn is_clock_seconds(seconds: i64) -> bool {
    0 <= seconds < 0x1_0000_0000_0000
}

/// Whether `millis` can be a reading of the clock in milliseconds since the
/// Unix epoch.
pub open spec fn is_clock_millis(millis: i64) -> bool {
    0 <= millis < 0x400_0000_0000_0000
}

/// `chrono::Utc::now()` read as milliseconds since the Unix epoch
/// (`DateTime::timestamp_millis`). Which instant it is depends on the system
/// clock. It is not before the epoch, because `Utc::now` panics on a clock
/// that stands before it, and it is below `2^58`, because `Utc::now` makes
/// its `DateTime` by `from_timestamp`, which takes no instant whose day does
/// not fit an `i32`.
#[verifier::external_body]
pub(crate) fn now_millis() -> (millis: i64)
    ensures
        is_clock_millis(millis),
{
    chrono::Utc::now().timestamp_millis()
}

/// `chrono::Utc::now()` read as seconds since the Unix epoch
/// (`DateTime::timestamp`). Which instant it is depends on the system clock.
/// It is not before the epoch, because `Utc::now` panics on a clock that
/// stands before it, and it is below `2^48`, because `Utc::now` makes its
/// `DateTime` by `from_timestamp`, which takes no instant whose day does not
/// fit an `i32`.
#[verifier::external_body]
pub(crate) fn now_seconds() -> (seconds: i64)
    ensures
        is_clock_seconds(seconds),
{
    chrono::Utc::now().timestamp()
}

/// `chrono::Utc::now()` written out by `format` with `pattern`. Which text
/// it is depends on the system clock. The pattern is held to the one in
/// which reports are dated, as in `2024-01-02 03:04:05 UTC`, because writing
/// a date out panics on a pattern that `format` does not know.
#[verifier::external_body]
pub(crate) fn timestamp_text(pattern: &str) -> String
    requires
        pattern@ == "%Y-%m-%d %H:%M:%S UTC"@,
{
    chrono::Utc::now().format(pattern).to_string()
}

} // verus!
