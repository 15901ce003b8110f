//! Terminal capability detection and text styling.
//!
//! The crate decides whether, and with which palette, a process should emit
//! colored text, and renders single styled spans that fall back to plain
//! text when color is switched off.
//!
//! Nothing in here touches the process environment or the standard streams:
//! callers hand in a snapshot of the relevant signals ([`env::EnvSignals`])
//! and keep the memoized answers in a [`state::TerminalState`].

pub mod colors;
pub mod env;
pub mod laws;
pub mod state;
pub mod strings;

pub use state::is_stderr_tty;
pub use state::is_stdout_tty;
pub use state::TerminalState;
