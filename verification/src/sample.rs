use vstd::prelude::*;

verus! {

/// Nanoseconds in one millisecond.
pub const NANOS_PER_MILLI: u64 = 1_000_000;

/// The outcome of one request attempt.
///
/// Instants are nanoseconds counted from a reference instant that all the
/// samples of one run share.
#[derive(Debug, Clone)]
pub struct RequestMetrics {
    pub start_time: u64,
    pub end_time: u64,
    /// The HTTP status, or 0 where no response arrived.
    pub status_code: u16,
    pub response_size: u64,
    pub endpoint: String,
    pub success: bool,
}

/// Whether an HTTP status counts as a success.
pub open spec fn is_success_status(status_code: u16) -> bool {
    200 <= status_code <= 299
}

impl RequestMetrics {
    /// Whole milliseconds between start and end; zero where the end lies
    /// before the start.
    pub open spec fn spec_duration_ms(&self) -> nat {
        if self.end_time >= self.start_time {
            ((self.end_time - self.start_time) / (NANOS_PER_MILLI as int)) as nat
        } else {
            0
        }
    }

    /// A sample is consistent when its success flag is the one its status
    /// code gives.
    pub open spec fn consistent(&self) -> bool {
        self.success == is_success_status(self.status_code)
    }

    /// Whole milliseconds between start and end.
    pub fn duration_ms(&self) -> (ms: u64)
        ensures
            ms == self.spec_duration_ms(),
    {
        if self.end_time >= self.start_time {
            (self.end_time - self.start_time) / NANOS_PER_MILLI
        } else {
            0
        }
    }

    /// The sample for a response that arrived with `status_code`. The size is
    /// the declared content length, zero where none was declared.
    pub fn from_response(
        start_time: u64,
        end_time: u64,
        status_code: u16,
        content_length: Option<u64>,
        endpoint: String,
    ) -> (sample: RequestMetrics)
        ensures
            sample.start_time == start_time,
            sample.end_time == end_time,
            sample.status_code == status_code,
            sample.response_size == (match content_length {
                Some(n) => n,
                None => 0,
            }),
            sample.endpoint == endpoint,
            sample.success == is_success_status(status_code),
            sample.consistent(),
    {
        let response_size: u64 = match content_length {
            Some(n) => n,
            None => 0,
        };
        RequestMetrics {
            start_time,
            end_time,
            status_code,
            response_size,
            endpoint,
            success: 200 <= status_code && status_code <= 299,
        }
    }

    /// The sample for a request that got no response: status 0, no bytes, no
    /// success.
    pub fn transport_failure(start_time: u64, end_time: u64, endpoint: String) -> (sample:
        RequestMetrics)
        ensures
            sample.start_time == start_time,
            sample.end_time == end_time,
            sample.status_code == 0,
            sample.response_size == 0,
            sample.endpoint == endpoint,
            !sample.success,
            sample.consistent(),
    {
        RequestMetrics {
            start_time,
            end_time,
            status_code: 0,
            response_size: 0,
            endpoint,
            success: false,
        }
    }
}

} // verus!
