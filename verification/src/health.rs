//! Health checking: the probe request, and the decisions of the wait for a
//! freshly started backend to answer.
//!
//! The wait polls `/health` until the backend answers or
//! [`HEALTH_CHECK_TIMEOUT_MS`] have passed since it began, and reports its
//! progress at most once every [`BACKEND_STATUS_INTERVAL_MS`]. Time is
//! measured in milliseconds since the wait began.
use vstd::prelude::*;

use crate::text::{decimal, push_decimal};

verus! {

/// How long the backend gets to pass its first health check.
pub const HEALTH_CHECK_TIMEOUT_MS: u64 = 60_000;

/// Pause between two health probes.
pub const HEALTH_CHECK_INTERVAL_MS: u64 = 500;

/// Timeout for a single health probe: connect, write and read alike.
pub const HEALTH_PROBE_TIMEOUT_MS: u64 = 2_000;

/// How often a progress report is made while waiting for the backend.
pub const BACKEND_STATUS_INTERVAL_MS: u64 = 1_000;

/// Grace period for the backend process to die after being asked to.
pub const BACKEND_STOP_TIMEOUT_MS: u64 = 5_000;

/// The `GET /health` request that the probe sends to the backend on `port`,
/// naming the shell's `version` in its user agent.
pub open spec fn health_request_text(port: u16, version: Seq<char>) -> Seq<char> {
    "GET /health HTTP/1.1\r\nHost: 127.0.0.1:"@ + decimal(port as nat)
        + "\r\nUser-Agent: go-magic-desktop/"@ + version
        + "\r\nAccept: */*\r\nConnection: close\r\n\r\n"@
}

/// The health probe's request. `Connection: close` keeps the backend from
/// holding the socket open, so the status line is flushed with the response.
pub fn health_request(port: u16, version: &str) -> (request: String)
    ensures
        request@ == health_request_text(port, version@),
{
    let mut request = String::new();
    request.append("GET /health HTTP/1.1\r\nHost: 127.0.0.1:");
    push_decimal(&mut request, port);
    request.append("\r\nUser-Agent: go-magic-desktop/");
    request.append(version);
    request.append("\r\nAccept: */*\r\nConnection: close\r\n\r\n");
    assert(request@ =~= health_request_text(port, version@));
    request
}

/// A progress report made while waiting for the backend: it is starting,
/// `elapsed_secs` whole seconds into the wait, on `port`.
pub struct StartingReport {
    pub elapsed_secs: u64,
    pub port: u16,
}

/// What the wait does after a health probe.
pub enum WaitDecision {
    /// The backend answered: it is ready.
    Ready,
    /// The time budget is spent: the backend did not become ready.
    GiveUp,
    /// Sleep this many milliseconds, then probe again.
    RetryAfter(u64),
}

/// The state of a wait for the backend to become ready: when the last
/// progress report was made, in milliseconds since the wait began.
pub struct ReadinessWait {
    last_report_ms: u64,
}

impl ReadinessWait {
    /// When the last progress report was made; the start of the wait before
    /// any.
    pub closed spec fn last_report(&self) -> u64 {
        self.last_report_ms
    }

    /// A wait that has just begun.
    pub fn new() -> (w: Self)
        ensures
            w.last_report() == 0,
    {
        ReadinessWait { last_report_ms: 0 }
    }

    /// Decides, `elapsed_ms` into the wait, whether a progress report for
    /// the backend on `port` is due.
    ///
    /// A report is due once [`BACKEND_STATUS_INTERVAL_MS`] have passed since
    /// the last one (or since the start); it then becomes the last one.
    pub fn report_due(&mut self, elapsed_ms: u64, port: u16) -> (report: Option<StartingReport>)
        ensures
            if elapsed_ms >= old(self).last_report() + BACKEND_STATUS_INTERVAL_MS {
                &&& report == Some(StartingReport { elapsed_secs: elapsed_ms / 1000, port })
                &&& final(self).last_report() == elapsed_ms
            } else {
                &&& report is None
                &&& final(self).last_report() == old(self).last_report()
            },
    {
        if elapsed_ms >= self.last_report_ms && elapsed_ms - self.last_report_ms
            >= BACKEND_STATUS_INTERVAL_MS {
            self.last_report_ms = elapsed_ms;
            Some(StartingReport { elapsed_secs: elapsed_ms / 1000, port })
        } else {
            None
        }
    }

    /// Decides what follows a health probe that finished `elapsed_ms` into
    /// the wait: ready when the backend answered healthy; otherwise give up
    /// once the budget is spent, and else probe again after a pause.
    pub fn after_probe(&self, healthy: bool, elapsed_ms: u64) -> (d: WaitDecision)
        ensures
            d == (if healthy {
                WaitDecision::Ready
            } else if elapsed_ms >= HEALTH_CHECK_TIMEOUT_MS {
                WaitDecision::GiveUp
            } else {
                WaitDecision::RetryAfter(HEALTH_CHECK_INTERVAL_MS)
            }),
    {
        if healthy {
            WaitDecision::Ready
        } else if elapsed_ms >= HEALTH_CHECK_TIMEOUT_MS {
            WaitDecision::GiveUp
        } else {
            WaitDecision::RetryAfter(HEALTH_CHECK_INTERVAL_MS)
        }
    }
}

} // verus!
