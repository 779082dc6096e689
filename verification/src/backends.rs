//! The two command backends behind the dashboard's security operations.
//!
//! `MockSystem` is the simulation backend: deterministic, fully specified,
//! and free of side effects. `LinuxSystem` is the real backend: the actual
//! subprocess run belongs to the host shell, while everything it decides or
//! assembles around that run (tool lookup, report building, the placeholder
//! scoring policy) stands here with a contract.

use vstd::prelude::*;

use crate::detector::join_spaces;
use crate::types::CommandResult;
use crate::types::SecurityScanResult;

verus! {

/// Relies on chrono's `Local::now` and `DateTime::format` with the pattern
/// `%Y-%m-%d %H:%M:%S`: the current local time, fields zero-padded (the
/// year to at least four digits), so the text is at least 19 characters.
/// What time comes back depends on the clock, so nothing more is promised.
#[verifier::external_body]
fn now_timestamp() -> (r: String)
    ensures
        r@.len() >= 19,
{
    chrono::Local::now().format("%Y-%m-%d %H:%M:%S").to_string()
}

/// Relies on `which::which`: whether the named program is on the host's
/// search path. The answer depends on the machine, so nothing is promised
/// of it; callers must handle both outcomes.
#[verifier::external_body]
fn which_finds(tool_name: &str) -> bool {
    which::which(tool_name).is_ok()
}

/// The exact text a mock run prints: an optional sudo marker and the echoed
/// invocation.
pub open spec fn mock_stdout(cmd: Seq<char>, args: Seq<Seq<char>>, require_sudo: bool) -> Seq<
    char,
> {
    (if require_sudo {
        "[SUDO] "@
    } else {
        Seq::<char>::empty()
    }) + "Simulated execution of: "@ + cmd + " "@ + join_spaces(args)
}

/// Simulation backend: pretends every tool is installed and fabricates
/// deterministic results without touching the OS.
#[derive(Default)]
pub struct MockSystem;

impl MockSystem {
    /// In simulation every tool counts as installed.
    pub fn check_tool_installed(&self, _tool_name: &str) -> (r: bool)
        ensures
            r,
    {
        true
    }

    /// A fabricated, always-successful run whose stdout echoes the
    /// invocation. Nothing is slept and nothing is measured, so the
    /// reported duration is zero.
    pub fn run_command(&self, command: &str, args: &Vec<String>, require_sudo: bool) -> (r:
        CommandResult)
        ensures
            r.success,
            r.stdout@ == mock_stdout(command@, args.deep_view(), require_sudo),
            r.stderr@ == Seq::<char>::empty(),
            r.duration_ms == 0,
    {
        let mut stdout = if require_sudo {
            String::from_str("[SUDO] ")
        } else {
            String::new()
        };
        stdout.append("Simulated execution of: ");
        stdout.append(command);
        stdout.append(" ");
        let joined = crate::detector::join_with_spaces(args);
        stdout.append(joined.as_str());
        CommandResult { success: true, stdout, stderr: String::new(), duration_ms: 0 }
    }

    /// A canned scan report with a non-zero payload, so downstream
    /// rendering has representative data: score 85 and two simulated
    /// findings.
    pub fn run_security_scan(&self, scan_type: &str) -> (r: SecurityScanResult)
        ensures
            r.timestamp@.len() >= 19,
            r.scan_type@ == scan_type@,
            r.score == 85,
            r.issues_found.deep_view() =~= seq![
                "WARNING: SSH Password Auth enabled (Simulated)"@,
                "SUGGESTION: Install fail2ban (Simulated)"@,
            ],
            r.raw_output@ == "--- MOCK LYNIS REPORT ---\n[+] System looks mostly secure\n[!] Found 2 potential issues..."@,
    {
        let issues_found: Vec<String> = vec![
            String::from_str("WARNING: SSH Password Auth enabled (Simulated)"),
            String::from_str("SUGGESTION: Install fail2ban (Simulated)"),
        ];
        SecurityScanResult {
            timestamp: now_timestamp(),
            scan_type: String::from_str(scan_type),
            score: 85,
            issues_found,
            raw_output: String::from_str(
                "--- MOCK LYNIS REPORT ---\n[+] System looks mostly secure\n[!] Found 2 potential issues...",
            ),
        }
    }
}

/// Real backend: looks tools up on the host and scores finished runs. The
/// subprocess spawn itself is host work; the host hands its outcome back as
/// a `CommandResult` and the report is assembled here.
#[derive(Default)]
pub struct LinuxSystem;

impl LinuxSystem {
    /// Whether the named tool is installed on the host (found on the search
    /// path).
    pub fn check_tool_installed(&self, tool_name: &str) -> bool {
        which_finds(tool_name)
    }

    /// The report issued without running anything, when the scan tool is
    /// not installed: zero score and an install hint.
    pub fn missing_tool_report(&self, scan_type: &str) -> (r: SecurityScanResult)
        ensures
            r.timestamp@.len() >= 19,
            r.scan_type@ == scan_type@,
            r.score == 0,
            r.issues_found.deep_view() =~= seq!["Error: Lynis is not installed."@],
            r.raw_output@ == "Please install lynis: sudo apt install lynis"@,
    {
        let issues_found: Vec<String> = vec![
            String::from_str("Error: Lynis is not installed."),
        ];
        SecurityScanResult {
            timestamp: now_timestamp(),
            scan_type: String::from_str(scan_type),
            score: 0,
            issues_found,
            raw_output: String::from_str("Please install lynis: sudo apt install lynis"),
        }
    }

    /// The report built from a finished command run. The scoring policy is
    /// the binary placeholder: 100 on success, 0 on failure; the raw output
    /// is the run's stdout on success and its stderr on failure.
    pub fn command_report(&self, scan_type: &str, result: &CommandResult) -> (r:
        SecurityScanResult)
        ensures
            r.timestamp@.len() >= 19,
            r.scan_type@ == scan_type@,
            r.score == if result.success {
                100u8
            } else {
                0u8
            },
            r.issues_found.deep_view() =~= seq![
                if result.success {
                    "Scan Completed"@
                } else {
                    "Scan Failed"@
                },
            ],
            r.raw_output@ == if result.success {
                result.stdout@
            } else {
                result.stderr@
            },
    {
        let issues_found: Vec<String> = if result.success {
            vec![String::from_str("Scan Completed")]
        } else {
            vec![String::from_str("Scan Failed")]
        };
        let raw_output = if result.success {
            result.stdout.clone()
        } else {
            result.stderr.clone()
        };
        SecurityScanResult {
            timestamp: now_timestamp(),
            scan_type: String::from_str(scan_type),
            score: if result.success {
                100
            } else {
                0
            },
            issues_found,
            raw_output,
        }
    }
}

} // verus!
