//! Platform detection and the simulated command backend.
//!
//! `SystemDetector` decides once, from the host's OS name, whether commands
//! run for real or in simulation. The simulated path is fully specified here:
//! it never touches the OS and its output is an exact function of the
//! invocation. The real path (spawning a subprocess) belongs to the host
//! shell, which reports back through `CommandResult`.

use vstd::prelude::*;

use crate::catalog::operation_args;
use crate::catalog::operation_invocation;
use crate::catalog::operation_program;
use crate::types::CommandResult;

verus! {

/// The arguments joined by single spaces, in order, as `join` renders them.
pub open spec fn join_spaces(parts: Seq<Seq<char>>) -> Seq<char>
    decreases parts.len(),
{
    if parts.len() == 0 {
        Seq::empty()
    } else if parts.len() == 1 {
        parts[0]
    } else {
        join_spaces(parts.drop_last()) + " "@ + parts.last()
    }
}

/// The exact text a simulated run prints: the echoed invocation and a
/// closing success line.
pub open spec fn simulated_stdout(cmd: Seq<char>, args: Seq<Seq<char>>) -> Seq<char> {
    "[SIMULATION] Executed: "@ + cmd + " "@ + join_spaces(args) + "\nSuccess."@
}

/// Joins the arguments with single spaces.
pub(crate) fn join_with_spaces(parts: &Vec<String>) -> (r: String)
    ensures
        r@ == join_spaces(parts.deep_view()),
{
    let ghost all: Seq<Seq<char>> = parts.deep_view();
    let mut out = String::new();
    let mut i: usize = 0;
    while i < parts.len()
        invariant
            i <= parts.len(),
            all == parts.deep_view(),
            out@ == join_spaces(all.take(i as int)),
        decreases parts.len() - i,
    {
        proof {
            assert(all.take(i as int + 1).drop_last() =~= all.take(i as int));
            assert(all.take(i as int + 1).last() == all[i as int]);
        }
        if i > 0 {
            out.append(" ");
        } else {
            proof {
                assert(all.take(1) =~= seq![all[0]]);
            }
        }
        out.append(parts[i].as_str());
        i += 1;
    }
    proof {
        assert(all.take(parts.len() as int) =~= all);
    }
    out
}

/// Chooses the command backend from the host platform, once, at startup.
///
/// Real execution is only attempted on Linux, where the underlying security
/// tools can exist; on every other platform the detector stays in simulation
/// mode for its whole life.
pub struct SystemDetector {
    pub simulation_mode: bool,
    pub os_type: String,
}

impl SystemDetector {
    /// Builds a detector for the given OS name (as the platform reports it,
    /// e.g. `"linux"` or `"macos"`). Simulation mode is on exactly when the
    /// platform is not Linux.
    pub fn new(os_type: String) -> (d: SystemDetector)
        ensures
            d.os_type@ == os_type@,
            d.simulation_mode == (os_type@ != "linux"@),
    {
        let linux: String = String::from_str("linux");
        let simulation_mode = !(os_type == linux);
        SystemDetector { simulation_mode, os_type }
    }

    /// Runs an invocation in simulation: no process is spawned, the result
    /// always succeeds, and its stdout echoes the program and arguments
    /// exactly. Nothing is slept and nothing is measured, so the reported
    /// duration is zero.
    pub fn run_command(&self, cmd: &str, args: &Vec<String>) -> (r: CommandResult)
        requires
            self.simulation_mode,
        ensures
            r.success,
            r.stdout@ == simulated_stdout(cmd@, args.deep_view()),
            r.stderr@ == Seq::<char>::empty(),
            r.duration_ms == 0,
    {
        let mut stdout = String::from_str("[SIMULATION] Executed: ");
        stdout.append(cmd);
        stdout.append(" ");
        let joined = join_with_spaces(args);
        stdout.append(joined.as_str());
        stdout.append("\nSuccess.");
        CommandResult { success: true, stdout, stderr: String::new(), duration_ms: 0 }
    }

    /// Simulates the full system audit of the first catalog entry.
    pub fn scan_lynis(&self) -> (r: CommandResult)
        requires
            self.simulation_mode,
        ensures
            r.success,
            r.stdout@ == simulated_stdout(operation_program(0), operation_args(0, true)),
            r.duration_ms == 0,
    {
        self.run_operation(0)
    }

    /// Simulates the malware scan of the second catalog entry.
    pub fn scan_clamav(&self) -> (r: CommandResult)
        requires
            self.simulation_mode,
        ensures
            r.success,
            r.stdout@ == simulated_stdout(operation_program(1), operation_args(1, true)),
            r.duration_ms == 0,
    {
        self.run_operation(1)
    }

    /// Simulates the SSH-hardening edit of the third catalog entry. In
    /// simulation the substitution aims at a fake path, so nothing on the
    /// host can be touched.
    pub fn harden_ssh(&self) -> (r: CommandResult)
        requires
            self.simulation_mode,
        ensures
            r.success,
            r.stdout@ == simulated_stdout(operation_program(2), operation_args(2, true)),
            r.duration_ms == 0,
    {
        self.run_operation(2)
    }

    /// Simulates the firewall enable of the fourth catalog entry.
    pub fn enable_firewall(&self) -> (r: CommandResult)
        requires
            self.simulation_mode,
        ensures
            r.success,
            r.stdout@ == simulated_stdout(operation_program(3), operation_args(3, true)),
            r.duration_ms == 0,
    {
        self.run_operation(3)
    }

    /// Simulates whichever catalog entry the position names.
    pub fn run_operation(&self, op_index: usize) -> (r: CommandResult)
        requires
            self.simulation_mode,
            op_index < crate::catalog::catalog_len(),
        ensures
            r.success,
            r.stdout@ == simulated_stdout(
                operation_program(op_index as int),
                operation_args(op_index as int, true),
            ),
            r.stderr@ == Seq::<char>::empty(),
            r.duration_ms == 0,
    {
        let (program, args) = operation_invocation(op_index, true);
        self.run_command(program.as_str(), &args)
    }
}

} // verus!
