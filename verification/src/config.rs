//! Central configuration, passed by reference to whatever needs it.
//!
//! Durations are carried in integer milliseconds. Loading the values from a
//! configuration file is the embedding application's business; the library
//! only defines the record, its defaults, and the text-truncation rules.

use vstd::prelude::*;


verus! {

/// Central configuration: display widths, port-lookup limits, and process
/// watching defaults.
#[derive(Debug, Clone, Copy)]
pub struct HefestoConfig {
    pub max_text_width: i32,
    pub max_process_name_width: i32,
    pub max_command_width: i32,
    pub max_service_width: i32,
    pub health_check_timeout_ms: u64,
    pub ssl_timeout_ms: u64,
    pub max_port_range: u32,
    pub default_interval_ms: u64,
    pub default_top_limit: usize,
    pub alert_history_seconds: u64,
}

impl Default for HefestoConfig {
    /// The built-in defaults, used when no configuration file overrides
    /// them.
    fn default() -> (r: HefestoConfig)
        ensures
            r.max_text_width == 256,
            r.max_process_name_width == 256,
            r.max_command_width == 256,
            r.max_service_width == 256,
            r.health_check_timeout_ms == 5000,
            r.ssl_timeout_ms == 10000,
            r.max_port_range == 1000,
            r.default_interval_ms == 1000,
            r.default_top_limit == 10,
            r.alert_history_seconds == 600,
    {
        HefestoConfig {
            max_text_width: 256,
            max_process_name_width: 256,
            max_command_width: 256,
            max_service_width: 256,
            health_check_timeout_ms: 5000,
            ssl_timeout_ms: 10000,
            max_port_range: 1000,
            default_interval_ms: 1000,
            default_top_limit: 10,
            alert_history_seconds: 600,
        }
    }
}

/// Text truncated to a width: kept whole when the width is negative
/// (disabled) or the text fits; cut hard at tiny widths; else cut with a
/// three-dot ellipsis within the width.
pub open spec fn spec_truncate_to(t: Seq<char>, max_width: int) -> Seq<char> {
    if max_width < 0 || t.len() <= max_width {
        t
    } else if max_width <= 3 {
        t.take(max_width)
    } else {
        t.take(max_width - 3) + "..."@
    }
}

impl HefestoConfig {
    /// Default sampling interval, in milliseconds.
    pub fn default_interval(&self) -> (r: u64)
        ensures
            r == self.default_interval_ms,
    {
        self.default_interval_ms
    }

    /// Alert history duration, in milliseconds; saturates at the largest
    /// representable duration.
    pub fn alert_history_duration(&self) -> (r: u64)
        ensures
            r == if self.alert_history_seconds > u64::MAX as int / 1000 {
                u64::MAX
            } else {
                (self.alert_history_seconds * 1000) as u64
            },
    {
        if self.alert_history_seconds > u64::MAX / 1000 {
            u64::MAX
        } else {
            self.alert_history_seconds * 1000
        }
    }

    /// Truncates text to the configured max width.
    pub fn truncate(&self, text: &str) -> (r: String)
        ensures
            r@ == spec_truncate_to(text@, self.max_text_width as int),
    {
        Self::truncate_to(text, self.max_text_width)
    }

    /// Truncates a process name according to configuration.
    pub fn truncate_process_name(&self, name: &str) -> (r: String)
        ensures
            r@ == spec_truncate_to(name@, self.max_process_name_width as int),
    {
        Self::truncate_to(name, self.max_process_name_width)
    }

    /// Truncates a command line according to configuration.
    pub fn truncate_command(&self, command: &str) -> (r: String)
        ensures
            r@ == spec_truncate_to(command@, self.max_command_width as int),
    {
        Self::truncate_to(command, self.max_command_width)
    }

    /// Truncates a service name according to configuration.
    pub fn truncate_service(&self, service: &str) -> (r: String)
        ensures
            r@ == spec_truncate_to(service@, self.max_service_width as int),
    {
        Self::truncate_to(service, self.max_service_width)
    }

    /// Truncates text to the specified max width. The original text comes
    /// back whole when the width is negative (truncation disabled) or the
    /// text already fits.
    pub fn truncate_to(text: &str, max_width: i32) -> (r: String)
        ensures
            r@ == spec_truncate_to(text@, max_width as int),
    {
        let n = text.unicode_len();
        if max_width < 0 || n as u64 <= max_width as u64 {
            proof {
                assert(max_width < 0 || n <= max_width);
            }
            return String::from_str(text);
        }
        let m = max_width as usize;
        if m <= 3 {
            return String::from_str(text.substring_char(0, m));
        }
        proof {
            reveal_strlit("...");
        }
        let mut s = String::from_str(text.substring_char(0, m - 3));
        s.append("...");
        s
    }
}

} // verus!
