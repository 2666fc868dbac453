//! Timeouts, delays and retry policy of the library.
use vstd::prelude::*;

use crate::duration::{duration_as_nanos, duration_from_millis, duration_from_secs, duration_nanos};

use std::time::Duration;

verus! {

/// Timeouts, delays and the retry policy.
#[derive(Debug, Clone)]
pub struct Settings {
    /// Default time to wait for an element (`wait`, `exists`). Default 20 s.
    pub wait_timeout: Duration,
    /// Pause before an action such as a click or swipe. Default 0.
    pub operation_delay_before: Duration,
    /// Pause after an action such as a click or swipe. Default 0.
    pub operation_delay_after: Duration,
    /// Timeout of a JSON-RPC HTTP request. Default 60 s.
    pub http_timeout: Duration,
    /// How many times a failed call is tried. Default 3.
    pub max_retry: u32,
    /// Pause between two polls while waiting for an element. Default 500 ms.
    pub polling_interval: Duration,
    /// Base pause of the retry backoff. Default 500 ms.
    pub retry_base_delay: Duration,
}

/// The default retry base delay in milliseconds, also used in place of a
/// zero delay.
pub const DEFAULT_RETRY_BASE_DELAY_MS: u64 = 500;

/// `s` holds the default settings.
pub open spec fn is_default_settings(s: Settings) -> bool {
    &&& duration_nanos(s.wait_timeout) == 20_000_000_000
    &&& duration_nanos(s.operation_delay_before) == 0
    &&& duration_nanos(s.operation_delay_after) == 0
    &&& duration_nanos(s.http_timeout) == 60_000_000_000
    &&& s.max_retry == 3
    &&& duration_nanos(s.polling_interval) == 500_000_000
    &&& duration_nanos(s.retry_base_delay) == 500_000_000
}

/// `after` is `before` with the retry base delay set from `delay`: a zero
/// delay is replaced by 500 ms, any other is kept as given.
pub open spec fn retry_base_delay_set(before: Settings, after: Settings, delay: Duration) -> bool {
    &&& after.wait_timeout == before.wait_timeout
    &&& after.operation_delay_before == before.operation_delay_before
    &&& after.operation_delay_after == before.operation_delay_after
    &&& after.http_timeout == before.http_timeout
    &&& after.max_retry == before.max_retry
    &&& after.polling_interval == before.polling_interval
    &&& if duration_nanos(delay) == 0 {
        duration_nanos(after.retry_base_delay) == DEFAULT_RETRY_BASE_DELAY_MS * 1_000_000
    } else {
        after.retry_base_delay == delay
    }
}

impl Default for Settings {
    /// The default settings: 20 s wait timeout, no operation delays, 60 s
    /// HTTP timeout, 3 tries, 500 ms polling interval and retry base delay.
    fn default() -> (r: Self)
        ensures
            is_default_settings(r),
    {
        Settings {
            wait_timeout: duration_from_secs(20),
            operation_delay_before: duration_from_millis(0),
            operation_delay_after: duration_from_millis(0),
            http_timeout: duration_from_secs(60),
            max_retry: 3,
            polling_interval: duration_from_millis(500),
            retry_base_delay: duration_from_millis(DEFAULT_RETRY_BASE_DELAY_MS),
        }
    }
}

impl Settings {
    /// The default settings.
    pub fn new() -> (r: Self)
        ensures
            is_default_settings(r),
    {
        Self::default()
    }

    /// Sets the default wait timeout.
    pub fn set_wait_timeout(&mut self, timeout: Duration)
        ensures
            *final(self) == (Settings { wait_timeout: timeout, ..*old(self) }),
    {
        self.wait_timeout = timeout;
    }

    /// Sets the pause before actions.
    pub fn set_operation_delay_before(&mut self, delay: Duration)
        ensures
            *final(self) == (Settings { operation_delay_before: delay, ..*old(self) }),
    {
        self.operation_delay_before = delay;
    }

    /// Sets the pause after actions.
    pub fn set_operation_delay_after(&mut self, delay: Duration)
        ensures
            *final(self) == (Settings { operation_delay_after: delay, ..*old(self) }),
    {
        self.operation_delay_after = delay;
    }

    /// Sets the HTTP timeout.
    pub fn set_http_timeout(&mut self, timeout: Duration)
        ensures
            *final(self) == (Settings { http_timeout: timeout, ..*old(self) }),
    {
        self.http_timeout = timeout;
    }

    /// Sets how many times a failed call is tried.
    pub fn set_max_retry(&mut self, max_retry: u32)
        ensures
            *final(self) == (Settings { max_retry: max_retry, ..*old(self) }),
    {
        self.max_retry = max_retry;
    }

    /// Sets the polling interval.
    pub fn set_polling_interval(&mut self, interval: Duration)
        ensures
            *final(self) == (Settings { polling_interval: interval, ..*old(self) }),
    {
        self.polling_interval = interval;
    }

    /// Sets the retry base delay; a zero delay is replaced by 500 ms, any
    /// other delay is kept as given.
    pub fn set_retry_base_delay(&mut self, delay: Duration)
        ensures
            retry_base_delay_set(*old(self), *final(self), delay),
    {
        if duration_as_nanos(&delay) == 0 {
            self.retry_base_delay = duration_from_millis(DEFAULT_RETRY_BASE_DELAY_MS);
        } else {
            self.retry_base_delay = delay;
        }
    }

    /// These settings with another wait timeout.
    pub fn with_wait_timeout(self, timeout: Duration) -> (r: Self)
        ensures
            r == (Settings { wait_timeout: timeout, ..self }),
    {
        let mut s = self;
        s.set_wait_timeout(timeout);
        s
    }

    /// These settings with another pause before actions.
    pub fn with_operation_delay_before(self, delay: Duration) -> (r: Self)
        ensures
            r == (Settings { operation_delay_before: delay, ..self }),
    {
        let mut s = self;
        s.set_operation_delay_before(delay);
        s
    }

    /// These settings with another pause after actions.
    pub fn with_operation_delay_after(self, delay: Duration) -> (r: Self)
        ensures
            r == (Settings { operation_delay_after: delay, ..self }),
    {
        let mut s = self;
        s.set_operation_delay_after(delay);
        s
    }

    /// These settings with another HTTP timeout.
    pub fn with_http_timeout(self, timeout: Duration) -> (r: Self)
        ensures
            r == (Settings { http_timeout: timeout, ..self }),
    {
        let mut s = self;
        s.set_http_timeout(timeout);
        s
    }

    /// These settings with another number of tries.
    pub fn with_max_retry(self, max_retry: u32) -> (r: Self)
        ensures
            r == (Settings { max_retry: max_retry, ..self }),
    {
        let mut s = self;
        s.set_max_retry(max_retry);
        s
    }

    /// These settings with another polling interval.
    pub fn with_polling_interval(self, interval: Duration) -> (r: Self)
        ensures
            r == (Settings { polling_interval: interval, ..self }),
    {
        let mut s = self;
        s.set_polling_interval(interval);
        s
    }

    /// These settings with another retry base delay, normalized as
    /// `set_retry_base_delay` does.
    pub fn with_retry_base_delay(self, delay: Duration) -> (r: Self)
        ensures
            retry_base_delay_set(self, r, delay),
    {
        let mut s = self;
        s.set_retry_base_delay(delay);
        s
    }
}

/// Setting the retry base delay never stores a zero delay, whatever it is
/// set to.
pub proof fn lemma_retry_base_delay_never_zero(
    before: Settings,
    after: Settings,
    delay: Duration,
)
    requires
        retry_base_delay_set(before, after, delay),
    ensures
        duration_nanos(after.retry_base_delay) > 0,
{
}

} // verus!
