//! Health-check outcome records: TCP reachability, HTTP status, and
//! certificate information. Timestamps are milliseconds since the Unix
//! epoch; certificate validity bounds are carried the same way.

use vstd::prelude::*;

use crate::clock::clock_now_millis;
use crate::numfmt::{digit_char, round_half_even, spec_digits, spec_round_half_even, u64_str, u128_str};

verus! {

/// Health check status.
#[derive(Debug, Clone, Copy, PartialEq, Eq, Structural)]
pub enum HealthStatus {
    Reachable,
    Unreachable,
    Timeout,
    Refused,
    Error,
}

impl HealthStatus {
    /// The human-readable status name.
    pub open spec fn spec_display_name(&self) -> Seq<char> {
        match self {
            HealthStatus::Reachable => "Reachable"@,
            HealthStatus::Unreachable => "Unreachable"@,
            HealthStatus::Timeout => "Timeout"@,
            HealthStatus::Refused => "Connection Refused"@,
            HealthStatus::Error => "Error"@,
        }
    }

    pub fn display_name(&self) -> (r: &'static str)
        ensures
            r@ == self.spec_display_name(),
    {
        match self {
            HealthStatus::Reachable => "Reachable",
            HealthStatus::Unreachable => "Unreachable",
            HealthStatus::Timeout => "Timeout",
            HealthStatus::Refused => "Connection Refused",
            HealthStatus::Error => "Error",
        }
    }

    /// Whether the status means healthy: only `Reachable` does.
    pub fn is_healthy(&self) -> (r: bool)
        ensures
            r == (*self == HealthStatus::Reachable),
    {
        match self {
            HealthStatus::Reachable => true,
            _ => false,
        }
    }
}

/// HTTP-specific health information.
#[derive(Debug, Clone)]
pub struct HttpInfo {
    pub status_code: u16,
    pub status_text: String,
    pub content_type: String,
    pub content_length: i64,
    pub response_time_ms: u64,
}

/// A content length rendered human-readably: `unknown` when negative, raw
/// bytes below 1 KiB, one decimal of KiB below 1 MiB, else two decimals of
/// MiB.
pub open spec fn spec_content_length(len: int) -> Seq<char> {
    if len < 0 {
        "unknown"@
    } else if len < 1024 {
        spec_digits(len as nat) + " bytes"@
    } else if len < 1024 * 1024 {
        let t = spec_round_half_even((len * 10) as nat, 1024);
        spec_digits(t / 10) + "."@ + seq![digit_char((t % 10) as int)] + " KB"@
    } else {
        let h = spec_round_half_even((len * 100) as nat, 1024 * 1024);
        spec_digits(h / 100) + "."@ + seq![digit_char(((h / 10) % 10) as int)] + seq![
            digit_char((h % 10) as int),
        ] + " MB"@
    }
}

impl HttpInfo {
    /// Whether the HTTP status is successful (2xx).
    pub fn is_success(&self) -> (r: bool)
        ensures
            r == (200 <= self.status_code < 300),
    {
        200 <= self.status_code && self.status_code < 300
    }

    /// The status formatted as `200 OK`.
    pub open spec fn spec_status_formatted(&self) -> Seq<char> {
        spec_digits(self.status_code as nat) + " "@ + self.status_text@
    }

    /// Returns the formatted status.
    pub fn status_formatted(&self) -> (r: String)
        ensures
            r@ == self.spec_status_formatted(),
    {
        proof {
            reveal_strlit(" ");
        }
        let mut s = u64_str(self.status_code as u64);
        s.append(" ");
        s.append(self.status_text.as_str());
        s
    }

    /// Returns the content length in human-readable form.
    pub fn content_length_formatted(&self) -> (r: String)
        ensures
            r@ == spec_content_length(self.content_length as int),
    {
        proof {
            reveal_strlit("unknown");
            reveal_strlit(" bytes");
            reveal_strlit(".");
            reveal_strlit(" KB");
            reveal_strlit(" MB");
        }
        if self.content_length < 0 {
            String::from_str("unknown")
        } else if self.content_length < 1024 {
            let mut s = u64_str(self.content_length as u64);
            s.append(" bytes");
            s
        } else if self.content_length < 1024 * 1024 {
            let t = round_half_even((self.content_length as u128) * 10, 1024);
            let mut s = u128_str(t / 10);
            s.append(".");
            s.append(crate::numfmt::digit_of(t % 10));
            s.append(" KB");
            s
        } else {
            let h = round_half_even((self.content_length as u128) * 100, 1024 * 1024);
            let mut s = u128_str(h / 100);
            s.append(".");
            s.append(crate::numfmt::digit_of((h / 10) % 10));
            s.append(crate::numfmt::digit_of(h % 10));
            s.append(" MB");
            s
        }
    }
}

/// SSL certificate information; validity bounds in milliseconds since the
/// Unix epoch.
#[derive(Debug, Clone)]
pub struct SslInfo {
    pub issuer: String,
    pub subject: String,
    pub valid_from: Option<u64>,
    pub valid_to: Option<u64>,
    pub protocol: String,
    pub cipher_suite: String,
    pub valid: bool,
}

/// Whether a certificate with the given expiry is past it at `now_ms`.
pub open spec fn spec_is_expired(valid_to: Option<u64>, now_ms: u64) -> bool {
    valid_to matches Some(vt) && now_ms > vt
}

/// Whole days from `now_ms` to an expiry instant, truncated toward zero and
/// negative when already past; `-1` when the expiry is unknown.
pub open spec fn spec_days_until(valid_to: Option<u64>, now_ms: u64) -> int {
    match valid_to {
        Some(vt) => if vt >= now_ms {
            (vt - now_ms) / 86400000
        } else {
            -(((now_ms - vt) / 86400000) as int)
        },
        None => -1,
    }
}

impl SslInfo {
    /// Days until expiry at a given instant.
    pub fn days_until_expiry_at(&self, now_ms: u64) -> (r: i64)
        ensures
            r == spec_days_until(self.valid_to, now_ms),
    {
        match self.valid_to {
            Some(vt) => if vt >= now_ms {
                ((vt - now_ms) / 86400000) as i64
            } else {
                -(((now_ms - vt) / 86400000) as i64)
            },
            None => -1,
        }
    }

    /// Days until expiry, read against the wall clock now.
    pub fn days_until_expiry(&self) -> (r: i64)
        ensures
            exists|now_ms: u64| r == #[trigger] spec_days_until(self.valid_to, now_ms),
    {
        let now_ms = clock_now_millis();
        let r = self.days_until_expiry_at(now_ms);
        proof {
            assert(r == spec_days_until(self.valid_to, now_ms));
        }
        r
    }

    /// Whether the certificate is expired at a given instant.
    pub fn is_expired_at(&self, now_ms: u64) -> (r: bool)
        ensures
            r == (self.valid_to matches Some(vt) && now_ms > vt),
    {
        match self.valid_to {
            Some(vt) => now_ms > vt,
            None => false,
        }
    }

    /// Whether the certificate is expired, read against the wall clock now.
    pub fn is_expired(&self) -> (r: bool)
        ensures
            exists|now_ms: u64| r == #[trigger] spec_is_expired(self.valid_to, now_ms),
    {
        let now_ms = clock_now_millis();
        let r = self.is_expired_at(now_ms);
        proof {
            assert(r == spec_is_expired(self.valid_to, now_ms));
        }
        r
    }

    /// Whether the certificate expires within 30 days of a given instant.
    pub fn expires_soon_at(&self, now_ms: u64) -> (r: bool)
        ensures
            r == (0 <= spec_days_until(self.valid_to, now_ms) <= 30),
    {
        let days = self.days_until_expiry_at(now_ms);
        0 <= days && days <= 30
    }

    /// Whether the certificate expires soon, read against the wall clock
    /// now.
    pub fn expires_soon(&self) -> (r: bool)
        ensures
            exists|now_ms: u64| r == (0 <= #[trigger] spec_days_until(self.valid_to, now_ms) <= 30),
    {
        let now_ms = clock_now_millis();
        let r = self.expires_soon_at(now_ms);
        proof {
            assert(r == (0 <= spec_days_until(self.valid_to, now_ms) <= 30));
        }
        r
    }
}

/// Result of a health check.
#[derive(Debug, Clone)]
pub struct HealthCheckResult {
    pub port: u16,
    pub protocol: String,
    pub status: HealthStatus,
    pub response_time_ms: u64,
    pub message: String,
    pub http_info: Option<HttpInfo>,
    pub ssl_info: Option<SslInfo>,
    pub timestamp: u64,
}

impl HealthCheckResult {
    /// Creates a TCP-only health check result, stamped with the wall clock.
    pub fn tcp(port: u16, status: HealthStatus, response_time_ms: u64, message: &str) -> (r:
        HealthCheckResult)
        ensures
            r.port == port,
            r.protocol@ == "TCP"@,
            r.status == status,
            r.response_time_ms == response_time_ms,
            r.message@ == message@,
            r.http_info is None,
            r.ssl_info is None,
    {
        HealthCheckResult {
            port,
            protocol: String::from_str("TCP"),
            status,
            response_time_ms,
            message: String::from_str(message),
            http_info: None,
            ssl_info: None,
            timestamp: clock_now_millis(),
        }
    }

    /// Creates an HTTP health check result, stamped with the wall clock.
    pub fn http(port: u16, status: HealthStatus, response_time_ms: u64, http_info: HttpInfo) -> (r:
        HealthCheckResult)
        ensures
            r.port == port,
            r.protocol@ == "HTTP"@,
            r.status == status,
            r.response_time_ms == response_time_ms,
            r.message@ == Seq::<char>::empty(),
            r.http_info matches Some(h) && h == http_info,
            r.ssl_info is None,
    {
        HealthCheckResult {
            port,
            protocol: String::from_str("HTTP"),
            status,
            response_time_ms,
            message: String::new(),
            http_info: Some(http_info),
            ssl_info: None,
            timestamp: clock_now_millis(),
        }
    }

    /// Creates an SSL health check result, stamped with the wall clock.
    pub fn ssl(port: u16, status: HealthStatus, response_time_ms: u64, ssl_info: SslInfo) -> (r:
        HealthCheckResult)
        ensures
            r.port == port,
            r.protocol@ == "SSL"@,
            r.status == status,
            r.response_time_ms == response_time_ms,
            r.message@ == Seq::<char>::empty(),
            r.http_info is None,
            r.ssl_info matches Some(s) && s == ssl_info,
    {
        HealthCheckResult {
            port,
            protocol: String::from_str("SSL"),
            status,
            response_time_ms,
            message: String::new(),
            http_info: None,
            ssl_info: Some(ssl_info),
            timestamp: clock_now_millis(),
        }
    }

    /// Whether the health check was successful.
    pub fn is_healthy(&self) -> (r: bool)
        ensures
            r == (self.status == HealthStatus::Reachable),
    {
        self.status.is_healthy()
    }
}

} // verus!
