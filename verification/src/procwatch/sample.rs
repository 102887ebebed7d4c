//! Point-in-time process metric snapshots.
//!
//! Percentages are carried as integer milli-percent (thousandths of a
//! percent), byte and operation counters as raw integers, and timestamps as
//! milliseconds since the Unix epoch, so every field is a plain value the
//! contracts can speak of exactly.

use vstd::prelude::*;

use crate::clock::clock_now_millis;
use crate::numfmt::{
    digit_char,
    milli_1dp,
    round_half_even,
    spec_digits,
    spec_milli_1dp,
    spec_round_half_even,
    spec_signed,
    u64_str,
    u128_str,
};

verus! {

/// Process state enumeration.
#[derive(Debug, Clone, Copy, PartialEq, Eq, Structural)]
pub enum ProcessState {
    Running,
    Sleeping,
    Waiting,
    Zombie,
    Stopped,
    Idle,
    Unknown,
}

impl ProcessState {
    /// The single-letter state code.
    pub open spec fn spec_code(&self) -> Seq<char> {
        match self {
            ProcessState::Running => "R"@,
            ProcessState::Sleeping => "S"@,
            ProcessState::Waiting => "D"@,
            ProcessState::Zombie => "Z"@,
            ProcessState::Stopped => "T"@,
            ProcessState::Idle => "I"@,
            ProcessState::Unknown => "?"@,
        }
    }

    pub fn code(&self) -> (r: &'static str)
        ensures
            r@ == self.spec_code(),
    {
        match self {
            ProcessState::Running => "R",
            ProcessState::Sleeping => "S",
            ProcessState::Waiting => "D",
            ProcessState::Zombie => "Z",
            ProcessState::Stopped => "T",
            ProcessState::Idle => "I",
            ProcessState::Unknown => "?",
        }
    }

    /// The human-readable state name.
    pub open spec fn spec_description(&self) -> Seq<char> {
        match self {
            ProcessState::Running => "Running"@,
            ProcessState::Sleeping => "Sleeping"@,
            ProcessState::Waiting => "Waiting"@,
            ProcessState::Zombie => "Zombie"@,
            ProcessState::Stopped => "Stopped"@,
            ProcessState::Idle => "Idle"@,
            ProcessState::Unknown => "Unknown"@,
        }
    }

    pub fn description(&self) -> (r: &'static str)
        ensures
            r@ == self.spec_description(),
    {
        match self {
            ProcessState::Running => "Running",
            ProcessState::Sleeping => "Sleeping",
            ProcessState::Waiting => "Waiting",
            ProcessState::Zombie => "Zombie",
            ProcessState::Stopped => "Stopped",
            ProcessState::Idle => "Idle",
            ProcessState::Unknown => "Unknown",
        }
    }

    /// The state a code string resolves to: decided by its first character.
    pub open spec fn spec_from_code(code: Seq<char>) -> ProcessState {
        if code.len() == 0 {
            ProcessState::Unknown
        } else {
            let c = code[0];
            if c == 'R' {
                ProcessState::Running
            } else if c == 'S' || c == 's' {
                ProcessState::Sleeping
            } else if c == 'D' {
                ProcessState::Waiting
            } else if c == 'Z' {
                ProcessState::Zombie
            } else if c == 'T' || c == 't' {
                ProcessState::Stopped
            } else if c == 'I' {
                ProcessState::Idle
            } else {
                ProcessState::Unknown
            }
        }
    }

    /// Resolves a state code string; unknown or empty codes give `Unknown`.
    pub fn from_code(code: &str) -> (r: ProcessState)
        ensures
            r == Self::spec_from_code(code@),
    {
        if code.unicode_len() == 0 {
            return ProcessState::Unknown;
        }
        let c = code.get_char(0);
        if c == 'R' {
            ProcessState::Running
        } else if c == 'S' || c == 's' {
            ProcessState::Sleeping
        } else if c == 'D' {
            ProcessState::Waiting
        } else if c == 'Z' {
            ProcessState::Zombie
        } else if c == 'T' || c == 't' {
            ProcessState::Stopped
        } else if c == 'I' {
            ProcessState::Idle
        } else {
            ProcessState::Unknown
        }
    }
}

/// CPU metrics; percentages in milli-percent.
#[derive(Debug, Clone, Copy)]
pub struct CpuMetrics {
    pub percent_instant: i64,
    pub percent_average: i64,
    pub user_time_ms: u64,
    pub system_time_ms: u64,
    pub total_time_ms: u64,
}

impl CpuMetrics {
    /// All-zero CPU metrics.
    pub fn zero() -> (r: CpuMetrics)
        ensures
            r.percent_instant == 0,
            r.percent_average == 0,
            r.user_time_ms == 0,
            r.system_time_ms == 0,
            r.total_time_ms == 0,
    {
        CpuMetrics {
            percent_instant: 0,
            percent_average: 0,
            user_time_ms: 0,
            system_time_ms: 0,
            total_time_ms: 0,
        }
    }

    /// The instantaneous percentage with one decimal and a `%` suffix.
    pub fn percent_formatted(&self) -> (r: String)
        ensures
            r@ == spec_percent_1dp(self.percent_instant as int),
    {
        percent_1dp(self.percent_instant)
    }

    /// The average percentage with one decimal and a `%` suffix.
    pub fn average_formatted(&self) -> (r: String)
        ensures
            r@ == spec_percent_1dp(self.percent_average as int),
    {
        percent_1dp(self.percent_average)
    }
}

/// A milli-percent value rendered with one decimal and a `%` suffix.
pub open spec fn spec_percent_1dp(v: int) -> Seq<char> {
    spec_signed(v, spec_milli_1dp(crate::numfmt::abs(v) as nat)) + "%"@
}

/// Renders a milli-percent value with one decimal and a `%` suffix.
pub fn percent_1dp(v: i64) -> (r: String)
    ensures
        r@ == spec_percent_1dp(v as int),
{
    proof {
        reveal_strlit("%");
    }
    let mut s = milli_1dp(v as i128);
    s.append("%");
    s
}

/// Memory metrics; sizes in bytes, share of total memory in milli-percent.
#[derive(Debug, Clone, Copy)]
pub struct MemoryMetrics {
    pub rss_bytes: u64,
    pub virtual_bytes: u64,
    pub shared_bytes: u64,
    pub percent_of_total: i64,
}

impl MemoryMetrics {
    /// All-zero memory metrics.
    pub fn zero() -> (r: MemoryMetrics)
        ensures
            r.rss_bytes == 0,
            r.virtual_bytes == 0,
            r.shared_bytes == 0,
            r.percent_of_total == 0,
    {
        MemoryMetrics { rss_bytes: 0, virtual_bytes: 0, shared_bytes: 0, percent_of_total: 0 }
    }

    /// Resident set size, human-scaled.
    pub fn rss_formatted(&self) -> (r: String)
        ensures
            r@ == spec_format_bytes(self.rss_bytes as nat),
    {
        format_bytes(self.rss_bytes)
    }

    /// Virtual size, human-scaled.
    pub fn virtual_formatted(&self) -> (r: String)
        ensures
            r@ == spec_format_bytes(self.virtual_bytes as nat),
    {
        format_bytes(self.virtual_bytes)
    }

    /// Resident set size in whole mebibytes.
    pub fn rss_mb(&self) -> (r: u64)
        ensures
            r == self.rss_bytes as nat / (1024 * 1024),
    {
        self.rss_bytes / (1024 * 1024)
    }

    /// Resident set size in whole gibibytes.
    pub fn rss_gb(&self) -> (r: u64)
        ensures
            r == self.rss_bytes as nat / (1024 * 1024 * 1024),
    {
        self.rss_bytes / (1024 * 1024 * 1024)
    }
}

/// I/O metrics: cumulative byte and operation counters.
#[derive(Debug, Clone, Copy)]
pub struct IoMetrics {
    pub read_bytes: u64,
    pub write_bytes: u64,
    pub read_ops: u64,
    pub write_ops: u64,
}

impl IoMetrics {
    /// All-zero I/O metrics.
    pub fn zero() -> (r: IoMetrics)
        ensures
            r.read_bytes == 0,
            r.write_bytes == 0,
            r.read_ops == 0,
            r.write_ops == 0,
    {
        IoMetrics { read_bytes: 0, write_bytes: 0, read_ops: 0, write_ops: 0 }
    }

    /// Cumulative bytes read, human-scaled.
    pub fn read_formatted(&self) -> (r: String)
        ensures
            r@ == spec_format_bytes(self.read_bytes as nat),
    {
        format_bytes(self.read_bytes)
    }

    /// Cumulative bytes written, human-scaled.
    pub fn write_formatted(&self) -> (r: String)
        ensures
            r@ == spec_format_bytes(self.write_bytes as nat),
    {
        format_bytes(self.write_bytes)
    }
}

/// A byte count rendered human-scaled: raw below 1 KiB, one decimal for KiB
/// and MiB, two decimals for GiB, rounded half-to-even as a binary float at
/// that precision is rendered.
pub open spec fn spec_format_bytes(b: nat) -> Seq<char> {
    if b < 1024 {
        spec_digits(b) + " B"@
    } else if b < 1024 * 1024 {
        let t = spec_round_half_even(b * 10, 1024);
        spec_digits(t / 10) + "."@ + seq![digit_char((t % 10) as int)] + " KB"@
    } else if b < 1024 * 1024 * 1024 {
        let t = spec_round_half_even(b * 10, 1024 * 1024);
        spec_digits(t / 10) + "."@ + seq![digit_char((t % 10) as int)] + " MB"@
    } else {
        let h = spec_round_half_even(b * 100, 1024 * 1024 * 1024);
        spec_digits(h / 100) + "."@ + seq![digit_char(((h / 10) % 10) as int)] + seq![
            digit_char((h % 10) as int),
        ] + " GB"@
    }
}

/// Renders a byte count human-scaled (B / KB / MB / GB).
pub fn format_bytes(bytes: u64) -> (r: String)
    ensures
        r@ == spec_format_bytes(bytes as nat),
{
    proof {
        reveal_strlit(" B");
        reveal_strlit(".");
        reveal_strlit(" KB");
        reveal_strlit(" MB");
        reveal_strlit(" GB");
    }
    if bytes < 1024 {
        let mut s = u64_str(bytes);
        s.append(" B");
        s
    } else if bytes < 1024 * 1024 {
        let t = round_half_even((bytes as u128) * 10, 1024);
        let mut s = u128_str(t / 10);
        s.append(".");
        s.append(crate::numfmt::digit_of(t % 10));
        s.append(" KB");
        s
    } else if bytes < 1024 * 1024 * 1024 {
        let t = round_half_even((bytes as u128) * 10, 1024 * 1024);
        let mut s = u128_str(t / 10);
        s.append(".");
        s.append(crate::numfmt::digit_of(t % 10));
        s.append(" MB");
        s
    } else {
        let h = round_half_even((bytes as u128) * 100, 1024 * 1024 * 1024);
        let mut s = u128_str(h / 100);
        s.append(".");
        s.append(crate::numfmt::digit_of((h / 10) % 10));
        s.append(crate::numfmt::digit_of(h % 10));
        s.append(" GB");
        s
    }
}

/// A single sample of process metrics at a point in time; timestamps are
/// milliseconds since the Unix epoch.
#[derive(Debug)]
pub struct ProcessSample {
    pub pid: u32,
    pub name: String,
    pub command_line: String,
    pub user: String,
    pub state: ProcessState,
    pub cpu: CpuMetrics,
    pub memory: MemoryMetrics,
    pub io: IoMetrics,
    pub thread_count: u32,
    pub open_file_descriptors: u32,
    pub start_time: Option<u64>,
    pub sample_time: u64,
}

/// Whether two samples carry the same values in every field.
pub open spec fn same_sample(a: &ProcessSample, b: &ProcessSample) -> bool {
    &&& a.pid == b.pid
    &&& a.name@ == b.name@
    &&& a.command_line@ == b.command_line@
    &&& a.user@ == b.user@
    &&& a.state == b.state
    &&& a.cpu == b.cpu
    &&& a.memory == b.memory
    &&& a.io == b.io
    &&& a.thread_count == b.thread_count
    &&& a.open_file_descriptors == b.open_file_descriptors
    &&& a.start_time == b.start_time
    &&& a.sample_time == b.sample_time
}

impl Clone for ProcessSample {
    /// A clone carries the same values in every field.
    fn clone(&self) -> (res: Self)
        ensures
            same_sample(&res, self),
    {
        ProcessSample {
            pid: self.pid,
            name: self.name.clone(),
            command_line: self.command_line.clone(),
            user: self.user.clone(),
            state: self.state,
            cpu: self.cpu,
            memory: self.memory,
            io: self.io,
            thread_count: self.thread_count,
            open_file_descriptors: self.open_file_descriptors,
            start_time: self.start_time,
            sample_time: self.sample_time,
        }
    }
}

impl ProcessSample {
    /// Milliseconds the process has been up at instant `now_ms`; zero when
    /// the start time is unknown or lies in the future.
    pub open spec fn spec_uptime_ms(&self, now_ms: u64) -> u64 {
        match self.start_time {
            Some(start) => if start <= now_ms {
                (now_ms - start) as u64
            } else {
                0
            },
            None => 0,
        }
    }

    /// Process uptime in milliseconds at a given instant.
    pub fn uptime_ms_at(&self, now_ms: u64) -> (r: u64)
        ensures
            r == self.spec_uptime_ms(now_ms),
    {
        match self.start_time {
            Some(start) => if start <= now_ms {
                now_ms - start
            } else {
                0
            },
            None => 0,
        }
    }

    /// Process uptime in milliseconds, read against the wall clock now.
    pub fn uptime(&self) -> (r: u64)
        ensures
            exists|now_ms: u64| r == self.spec_uptime_ms(now_ms),
    {
        let now_ms = clock_now_millis();
        let r = self.uptime_ms_at(now_ms);
        proof {
            assert(r == self.spec_uptime_ms(now_ms));
        }
        r
    }

    /// Formatted uptime at a given instant.
    pub fn uptime_formatted_at(&self, now_ms: u64) -> (r: String)
        ensures
            r@ == spec_format_uptime_ms(self.spec_uptime_ms(now_ms) as nat),
    {
        format_uptime_ms(self.uptime_ms_at(now_ms))
    }

    /// Formatted uptime, read against the wall clock now.
    pub fn uptime_formatted(&self) -> (r: String)
        ensures
            exists|now_ms: u64| r@ == spec_format_uptime_ms(self.spec_uptime_ms(now_ms) as nat),
    {
        let now_ms = clock_now_millis();
        let r = self.uptime_formatted_at(now_ms);
        proof {
            assert(r@ == spec_format_uptime_ms(self.spec_uptime_ms(now_ms) as nat));
        }
        r
    }

    /// Creates a minimal sample for a process; all metrics zero, the state
    /// unknown, and the sample time read from the wall clock.
    pub fn minimal(pid: u32, name: &str, user: &str) -> (r: ProcessSample)
        ensures
            r.pid == pid,
            r.name@ == name@,
            r.command_line@ == Seq::<char>::empty(),
            r.user@ == user@,
            r.state == ProcessState::Unknown,
            r.cpu.percent_instant == 0,
            r.memory.rss_bytes == 0,
            r.memory.virtual_bytes == 0,
            r.io.read_bytes == 0,
            r.io.write_bytes == 0,
            r.thread_count == 0,
            r.open_file_descriptors == 0,
            r.start_time is None,
    {
        ProcessSample {
            pid,
            name: String::from_str(name),
            command_line: String::new(),
            user: String::from_str(user),
            state: ProcessState::Unknown,
            cpu: CpuMetrics::zero(),
            memory: MemoryMetrics::zero(),
            io: IoMetrics::zero(),
            thread_count: 0,
            open_file_descriptors: 0,
            start_time: None,
            sample_time: clock_now_millis(),
        }
    }
}

/// An uptime in milliseconds rendered as days/hours/minutes/seconds, showing
/// the three largest applicable units.
pub open spec fn spec_format_uptime_ms(ms: nat) -> Seq<char> {
    let days = ms / 86400000;
    let hours = (ms / 3600000) % 24;
    let minutes = (ms / 60000) % 60;
    let seconds = (ms / 1000) % 60;
    if days > 0 {
        spec_digits(days) + "d "@ + spec_digits(hours) + "h "@ + spec_digits(minutes) + "m"@
    } else if hours > 0 {
        spec_digits(hours) + "h "@ + spec_digits(minutes) + "m "@ + spec_digits(seconds) + "s"@
    } else if minutes > 0 {
        spec_digits(minutes) + "m "@ + spec_digits(seconds) + "s"@
    } else {
        spec_digits(seconds) + "s"@
    }
}

/// Renders an uptime in milliseconds as days/hours/minutes/seconds.
pub fn format_uptime_ms(ms: u64) -> (r: String)
    ensures
        r@ == spec_format_uptime_ms(ms as nat),
{
    proof {
        reveal_strlit("d ");
        reveal_strlit("h ");
        reveal_strlit("m ");
        reveal_strlit("m");
        reveal_strlit("s");
    }
    let days = ms / 86400000;
    let hours = (ms / 3600000) % 24;
    let minutes = (ms / 60000) % 60;
    let seconds = (ms / 1000) % 60;
    if days > 0 {
        let mut s = u64_str(days);
        s.append("d ");
        let h = u64_str(hours);
        s.append(h.as_str());
        s.append("h ");
        let m = u64_str(minutes);
        s.append(m.as_str());
        s.append("m");
        s
    } else if hours > 0 {
        let mut s = u64_str(hours);
        s.append("h ");
        let m = u64_str(minutes);
        s.append(m.as_str());
        s.append("m ");
        let sec = u64_str(seconds);
        s.append(sec.as_str());
        s.append("s");
        s
    } else if minutes > 0 {
        let mut s = u64_str(minutes);
        s.append("m ");
        let sec = u64_str(seconds);
        s.append(sec.as_str());
        s.append("s");
        s
    } else {
        let mut s = u64_str(seconds);
        s.append("s");
        s
    }
}

} // verus!
