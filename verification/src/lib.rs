//! Decides how many colors an output stream may safely render.
//!
//! The verdict is a [`ColorSupport`]: no color, the 16-color ANSI palette,
//! the 256-color palette, or 24-bit true color. It is computed from two
//! inputs only: whether the stream is attached to an interactive terminal
//! ([`IsTerminal`]), and a snapshot of the environment signals that describe
//! the terminal ([`TermVars`]). Nothing here reads the process environment or
//! touches a stream; callers collect both inputs and hand them in.
//!
//! [`ColorSupport::resolve`] is the whole decision as a function of plain
//! values. [`ColorSupport::detect_with_vars`] asks a stream first.

pub mod detect;
pub mod laws;
pub mod numeral;
pub mod support;
pub mod text;
pub mod var;
pub mod vars;

pub use detect::{ForceNoTerminal, ForceTerminal, IsTerminal, Multiplexer};
pub use support::ColorSupport;
pub use var::{truthy_var, TermVar};
pub use vars::{OverrideVars, TermMetaVars, TermVars, TmuxVars};
