use aegis::backends::LinuxSystem;
use aegis::backends::MockSystem;
use aegis::detector::SystemDetector;
use aegis::types::CommandResult;
use aegis::types::SystemMetrics;

#[test]
fn detector_simulates_everywhere_but_linux() {
    assert!(SystemDetector::new("macos".to_string()).simulation_mode);
    assert!(SystemDetector::new("windows".to_string()).simulation_mode);
    assert!(!SystemDetector::new("linux".to_string()).simulation_mode);
}

#[test]
fn simulated_run_echoes_program_and_args() {
    let detector = SystemDetector::new("macos".to_string());
    let args = vec!["hello".to_string(), "world".to_string()];
    let r = detector.run_command("echo", &args);
    assert!(r.success);
    assert_eq!(r.stdout, "[SIMULATION] Executed: echo hello world\nSuccess.");
    assert_eq!(r.stderr, "");
    assert_eq!(r.duration_ms, 0);
}

#[test]
fn simulated_run_with_no_args_keeps_the_shape() {
    let detector = SystemDetector::new("macos".to_string());
    let r = detector.run_command("uptime", &Vec::new());
    assert!(r.success);
    assert_eq!(r.stdout, "[SIMULATION] Executed: uptime \nSuccess.");
}

#[test]
fn simulated_operations_succeed_deterministically() {
    let detector = SystemDetector::new("freebsd".to_string());
    let scan = detector.scan_lynis();
    assert!(scan.success);
    assert_eq!(
        scan.stdout,
        "[SIMULATION] Executed: lynis audit system --quick --no-colors\nSuccess."
    );
    let malware = detector.scan_clamav();
    assert!(malware.success);
    assert_eq!(malware.stdout, "[SIMULATION] Executed: clamscan -r /tmp --no-summary\nSuccess.");
    let harden = detector.harden_ssh();
    assert!(harden.success);
    assert_eq!(
        harden.stdout,
        "[SIMULATION] Executed: sed -i s/PermitRootLogin yes/PermitRootLogin no/ /fake/path/sshd_config\nSuccess."
    );
    let firewall = detector.enable_firewall();
    assert!(firewall.success);
    assert_eq!(firewall.stdout, "[SIMULATION] Executed: ufw enable\nSuccess.");
}

#[test]
fn spawn_failure_reports_on_stderr() {
    let r = CommandResult::spawn_failure("No such file or directory (os error 2)", 3);
    assert!(!r.success);
    assert_eq!(r.stdout, "");
    assert_eq!(r.stderr, "Failed to execute command: No such file or directory (os error 2)");
    assert!(!r.stderr.is_empty());
    assert_eq!(r.duration_ms, 3);
}

#[test]
fn mock_pretends_every_tool_is_installed() {
    let mock = MockSystem::default();
    assert!(mock.check_tool_installed("lynis"));
    assert!(mock.check_tool_installed("no-such-tool"));
}

#[test]
fn mock_run_echoes_invocation_with_sudo_marker() {
    let mock = MockSystem::default();
    let args = vec!["update".to_string()];
    let r = mock.run_command("apt", &args, true);
    assert!(r.success);
    assert_eq!(r.stdout, "[SUDO] Simulated execution of: apt update");
    assert_eq!(r.stderr, "");
    assert_eq!(r.duration_ms, 0);
    let plain = mock.run_command("apt", &args, false);
    assert_eq!(plain.stdout, "Simulated execution of: apt update");
}

#[test]
fn mock_scan_returns_the_canned_report() {
    let mock = MockSystem::default();
    let r = mock.run_security_scan("full");
    assert_eq!(r.scan_type, "full");
    assert_eq!(r.score, 85);
    assert_eq!(
        r.issues_found,
        vec![
            "WARNING: SSH Password Auth enabled (Simulated)".to_string(),
            "SUGGESTION: Install fail2ban (Simulated)".to_string(),
        ]
    );
    assert_eq!(
        r.raw_output,
        "--- MOCK LYNIS REPORT ---\n[+] System looks mostly secure\n[!] Found 2 potential issues..."
    );
    assert!(r.timestamp.len() >= 19);
}

#[test]
fn linux_missing_tool_report_scores_zero() {
    let system = LinuxSystem::default();
    let r = system.missing_tool_report("full");
    assert_eq!(r.scan_type, "full");
    assert_eq!(r.score, 0);
    assert_eq!(r.issues_found, vec!["Error: Lynis is not installed.".to_string()]);
    assert_eq!(r.raw_output, "Please install lynis: sudo apt install lynis");
    assert!(r.timestamp.len() >= 19);
}

#[test]
fn linux_command_report_scores_the_binary_placeholder() {
    let system = LinuxSystem::default();
    let ok = CommandResult {
        success: true,
        stdout: "audit done".to_string(),
        stderr: "".to_string(),
        duration_ms: 1500,
    };
    let r = system.command_report("full", &ok);
    assert_eq!(r.score, 100);
    assert_eq!(r.issues_found, vec!["Scan Completed".to_string()]);
    assert_eq!(r.raw_output, "audit done");
    let failed = CommandResult {
        success: false,
        stdout: "".to_string(),
        stderr: "permission denied".to_string(),
        duration_ms: 10,
    };
    let r = system.command_report("full", &failed);
    assert_eq!(r.score, 0);
    assert_eq!(r.issues_found, vec!["Scan Failed".to_string()]);
    assert_eq!(r.raw_output, "permission denied");
}

#[test]
fn linux_tool_lookup_misses_nonsense_names() {
    let system = LinuxSystem::default();
    assert!(!system.check_tool_installed("surely-not-a-real-tool-name-zzz"));
}

#[test]
fn metrics_scale_memory_to_basis_points() {
    let m = SystemMetrics::from_raw(2500, 500, 1000, 77);
    assert_eq!(m.cpu_usage_bp, 2500);
    assert_eq!(m.memory_usage_bp, 5000);
    assert_eq!(m.disk_usage_bp, 4500);
    assert_eq!(m.uptime_seconds, 77);
    let all = SystemMetrics::from_raw(0, 8, 8, 0);
    assert_eq!(all.memory_usage_bp, 10000);
    let unknown = SystemMetrics::from_raw(0, 0, 0, 0);
    assert_eq!(unknown.memory_usage_bp, 0);
}

#[test]
fn metrics_default_is_idle() {
    let m = SystemMetrics::default();
    assert_eq!(m.cpu_usage_bp, 0);
    assert_eq!(m.memory_usage_bp, 0);
    assert_eq!(m.disk_usage_bp, 0);
    assert_eq!(m.uptime_seconds, 0);
}
