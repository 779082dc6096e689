//! The fixed, ordered catalog of administrative security operations.
//!
//! Four operations exist, built once at startup and never mutated: a Lynis
//! audit, a ClamAV scan, an SSH-hardening edit and a firewall enable. The
//! catalog order is the only valid range for the selection cursor. Each
//! entry maps to one exact program-and-arguments invocation; the hardening
//! and firewall entries invoke a softer variant in simulation mode.

use vstd::prelude::*;

verus! {

/// How many operations the catalog holds.
pub open spec fn catalog_len() -> int {
    4
}

/// The program each catalog entry invokes, by entry position.
pub open spec fn operation_program(op: int) -> Seq<char> {
    if op == 0 {
        "lynis"@
    } else if op == 1 {
        "clamscan"@
    } else if op == 2 {
        "sed"@
    } else {
        "ufw"@
    }
}

/// The argument vector each catalog entry invokes, by entry position.
///
/// The SSH-hardening entry edits a fake path in simulation so a stray real
/// run cannot touch the host's SSH daemon; the firewall entry only forces
/// the enable outside simulation.
pub open spec fn operation_args(op: int, simulation: bool) -> Seq<Seq<char>> {
    if op == 0 {
        seq!["audit"@, "system"@, "--quick"@, "--no-colors"@]
    } else if op == 1 {
        seq!["-r"@, "/tmp"@, "--no-summary"@]
    } else if op == 2 {
        if simulation {
            seq!["-i"@, "s/PermitRootLogin yes/PermitRootLogin no/"@, "/fake/path/sshd_config"@]
        } else {
            seq!["-i"@, "s/^PermitRootLogin.*/PermitRootLogin no/"@, "/etc/ssh/sshd_config"@]
        }
    } else {
        if simulation {
            seq!["enable"@]
        } else {
            seq!["--force"@, "enable"@]
        }
    }
}

/// The catalog's titles and descriptions, exactly as the list presents them.
pub open spec fn is_default_catalog(tasks: Seq<(String, String)>) -> bool {
    &&& tasks.len() == catalog_len()
    &&& tasks[0].0@ == "Security Scan (Lynis)"@
    &&& tasks[0].1@ == "Run full system audit"@
    &&& tasks[1].0@ == "Malware Scan (ClamAV)"@
    &&& tasks[1].1@ == "Scan /tmp for threats"@
    &&& tasks[2].0@ == "Harden SSH"@
    &&& tasks[2].1@ == "Disable Root Login"@
    &&& tasks[3].0@ == "Enable Firewall"@
    &&& tasks[3].1@ == "UFW Default Deny/Allow Out"@
}

/// Builds the catalog entries: title and description per operation.
pub fn default_catalog() -> (tasks: Vec<(String, String)>)
    ensures
        is_default_catalog(tasks@),
{
    let tasks: Vec<(String, String)> = vec![
        (String::from_str("Security Scan (Lynis)"), String::from_str("Run full system audit")),
        (String::from_str("Malware Scan (ClamAV)"), String::from_str("Scan /tmp for threats")),
        (String::from_str("Harden SSH"), String::from_str("Disable Root Login")),
        (String::from_str("Enable Firewall"), String::from_str("UFW Default Deny/Allow Out")),
    ];
    tasks
}

/// Hands out the exact program and argument vector for one catalog entry.
pub fn operation_invocation(op_index: usize, simulation_mode: bool) -> (inv: (String, Vec<String>))
    requires
        op_index < catalog_len(),
    ensures
        inv.0@ == operation_program(op_index as int),
        inv.1.deep_view() == operation_args(op_index as int, simulation_mode),
{
    if op_index == 0 {
        let args: Vec<String> = vec![
            String::from_str("audit"),
            String::from_str("system"),
            String::from_str("--quick"),
            String::from_str("--no-colors"),
        ];
        proof {
            assert(args.deep_view() =~= operation_args(0, simulation_mode));
        }
        (String::from_str("lynis"), args)
    } else if op_index == 1 {
        let args: Vec<String> = vec![
            String::from_str("-r"),
            String::from_str("/tmp"),
            String::from_str("--no-summary"),
        ];
        proof {
            assert(args.deep_view() =~= operation_args(1, simulation_mode));
        }
        (String::from_str("clamscan"), args)
    } else if op_index == 2 {
        let args: Vec<String> = if simulation_mode {
            vec![
                String::from_str("-i"),
                String::from_str("s/PermitRootLogin yes/PermitRootLogin no/"),
                String::from_str("/fake/path/sshd_config"),
            ]
        } else {
            vec![
                String::from_str("-i"),
                String::from_str("s/^PermitRootLogin.*/PermitRootLogin no/"),
                String::from_str("/etc/ssh/sshd_config"),
            ]
        };
        proof {
            assert(args.deep_view() =~= operation_args(2, simulation_mode));
        }
        (String::from_str("sed"), args)
    } else {
        let args: Vec<String> = if simulation_mode {
            vec![String::from_str("enable")]
        } else {
            vec![String::from_str("--force"), String::from_str("enable")]
        };
        proof {
            assert(args.deep_view() =~= operation_args(op_index as int, simulation_mode));
        }
        (String::from_str("ufw"), args)
    }
}

} // verus!
