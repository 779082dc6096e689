//! Verified core of a security-operations dashboard.
//!
//! The crate models the engine behind a terminal dashboard that polls system
//! telemetry on a fixed cadence, offers a catalog of administrative security
//! operations, executes the selected operation through a pluggable command
//! backend (a real subprocess runner or a deterministic simulation), and
//! drives all of it from a single event-driven state machine.
//!
//! Everything that decides or computes lives here with a contract; the host
//! shell around the library only reads the clock, spawns processes, samples
//! the CPU and draws frames.

pub mod backends;
pub mod catalog;
pub mod controller;
pub mod detector;
pub mod telemetry;
pub mod theme;
pub mod types;

pub use types::CommandResult;
pub use types::SecurityScanResult;
pub use types::SystemMetrics;
