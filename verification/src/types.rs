//! Plain data carried between the engine and its backends.

use vstd::prelude::*;

verus! {

/// Outcome of one command invocation, real or simulated.
///
/// Immutable once produced; all failure is captured inside the value
/// (`success == false`, `stderr` populated), never raised. The wall-clock
/// duration is held in whole milliseconds.
#[derive(Clone, Debug)]
pub struct CommandResult {
    pub success: bool,
    pub stdout: String,
    pub stderr: String,
    pub duration_ms: u64,
}

impl CommandResult {
    /// Result reported when the host could not spawn the program at all
    /// (missing binary, permission denied). The diagnostic text handed in is
    /// surfaced on `stderr` behind a fixed prefix, so `stderr` is never empty.
    pub fn spawn_failure(error_text: &str, duration_ms: u64) -> (r: CommandResult)
        ensures
            !r.success,
            r.stdout@ == Seq::<char>::empty(),
            r.stderr@ == "Failed to execute command: "@ + error_text@,
            r.stderr@.len() > 0,
            r.duration_ms == duration_ms,
    {
        proof {
            reveal_strlit("Failed to execute command: ");
        }
        let mut stderr = String::from_str("Failed to execute command: ");
        stderr.append(error_text);
        CommandResult { success: false, stdout: String::new(), stderr, duration_ms }
    }
}

/// Report produced by a security scan, canned or parsed from a real tool run.
#[derive(Clone, Debug)]
pub struct SecurityScanResult {
    pub timestamp: String,
    pub scan_type: String,
    pub score: u8,
    pub issues_found: Vec<String>,
    pub raw_output: String,
}

/// One reading of host utilization.
///
/// Percentages are held in basis points (hundredths of a percent, so
/// `0..=10000` covers 0%..=100%), which keeps the arithmetic exact.
#[derive(Clone, Debug)]
pub struct SystemMetrics {
    pub cpu_usage_bp: u16,
    pub memory_usage_bp: u16,
    pub disk_usage_bp: u16,
    pub uptime_seconds: u64,
}

impl SystemMetrics {
    /// Builds a reading from raw host values: a CPU utilization already in
    /// basis points, the used and total memory in bytes, and the uptime.
    ///
    /// Memory utilization is `used / total` as basis points, rounded down,
    /// and 0 when the total is unknown. Disk utilization is a fixed
    /// placeholder of 45% until a real per-disk walk is specified.
    pub fn from_raw(
        cpu_usage_bp: u16,
        memory_used: u64,
        memory_total: u64,
        uptime_seconds: u64,
    ) -> (m: SystemMetrics)
        requires
            memory_used <= memory_total,
        ensures
            m.cpu_usage_bp == cpu_usage_bp,
            m.memory_usage_bp as int == if memory_total > 0 {
                (memory_used * 10000) as int / memory_total as int
            } else {
                0
            },
            m.memory_usage_bp <= 10000,
            m.disk_usage_bp == 4500,
            m.uptime_seconds == uptime_seconds,
    {
        let memory_usage_bp: u16 = if memory_total == 0 {
            0
        } else {
            let scaled: u128 = memory_used as u128 * 10000;
            let quotient: u128 = scaled / (memory_total as u128);
            proof {
                lemma_ratio_in_basis_points(memory_used as int, memory_total as int);
            }
            quotient as u16
        };
        SystemMetrics { cpu_usage_bp, memory_usage_bp, disk_usage_bp: 4500, uptime_seconds }
    }
}

impl Default for SystemMetrics {
    /// An idle reading: every utilization at zero.
    fn default() -> (m: Self)
        ensures
            m.cpu_usage_bp == 0,
            m.memory_usage_bp == 0,
            m.disk_usage_bp == 0,
            m.uptime_seconds == 0,
    {
        SystemMetrics { cpu_usage_bp: 0, memory_usage_bp: 0, disk_usage_bp: 0, uptime_seconds: 0 }
    }
}

/// A part scaled against the whole it is bounded by never exceeds 100%
/// expressed in basis points.
proof fn lemma_ratio_in_basis_points(used: int, total: int)
    requires
        0 <= used <= total,
        0 < total,
    ensures
        0 <= (used * 10000) / total <= 10000,
{
    assert((used * 10000) / total <= 10000 && 0 <= (used * 10000) / total) by (nonlinear_arith)
        requires
            0 <= used <= total,
            0 < total,
    ;
}

} // verus!
