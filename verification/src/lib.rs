//! Library form of vmtest: a harness that boots short-lived virtual machines
//! and runs user commands inside them.

/// Verified text helpers: decimal formatting, splitting, trimming.
pub mod text;

/// Vmtest configuration.
pub mod config;

/// Contains definitions for streaming output.
pub mod output;

/// Error taxonomy for a run.
pub mod errors;

/// Guest agent version handling.
pub mod qga;

/// Hypervisor argument synthesis and per-run plan.
pub mod qemu;

/// The run state machine.
pub mod run;

/// Contains user interface decision logic.
pub mod ui;

/// Contains main vmtest logic.
pub mod vmtest;

pub use crate::config::Config;
pub use crate::config::Mount;
pub use crate::config::Target;
pub use crate::config::VMConfig;
pub use crate::errors::VmError;
pub use crate::ui::Ui;
pub use crate::vmtest::Vmtest;
