//! How the latency collector is set up.

use vstd::prelude::*;
use crate::metric::Metric;

verus! {

/// Number of windows that the collector keeps: one per second of a day.
pub const WINDOWS: usize = 86400;

/// Length of one window, in seconds.
pub const WINDOW_SECONDS: usize = 1;

/// Number of samples that may wait between the worker and the collector.
/// A worker that finds the queue full waits for room.
pub const QUEUE_CAPACITY: usize = 1024;

/// Where the collector serves its statistics over HTTP: every interface,
/// port 42024.
pub const HTTP_LISTEN: &'static str = "0.0.0.0:42024";

/// The collector's settings.
#[derive(Clone, Copy, Debug)]
pub struct CollectorSettings {
    /// How many windows are kept.
    pub windows: usize,
    /// Length of one window, in seconds.
    pub duration: usize,
    /// Capacity of the sample queue.
    pub capacity: usize,
    /// Address that the HTTP listener binds.
    pub http_listen: &'static str,
    /// The metric whose samples are counted.
    pub counted: Metric,
}

impl CollectorSettings {
    /// How many seconds of history the collector keeps.
    pub open spec fn spec_retention_seconds(self) -> int {
        self.windows * self.duration
    }
}

/// The settings that the server runs its collector with: a day of history in
/// windows of one second, a queue of 1024 samples, and a count of answered
/// echoes, the one metric there is.
pub fn collector_settings() -> (settings: CollectorSettings)
    ensures
        settings.windows == WINDOWS,
        settings.duration == WINDOW_SECONDS,
        settings.capacity == QUEUE_CAPACITY,
        settings.http_listen@ == HTTP_LISTEN@,
        settings.counted == Metric::Okay,
        settings.spec_retention_seconds() == 24 * 3600,
{
    CollectorSettings {
        windows: WINDOWS,
        duration: WINDOW_SECONDS,
        capacity: QUEUE_CAPACITY,
        http_listen: HTTP_LISTEN,
        counted: Metric::Okay,
    }
}

} // verus!
