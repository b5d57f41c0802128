//! The detection rules.
//!
//! Detection is an ordered chain of rules; the first rule that applies gives
//! the verdict and the rest are not consulted:
//!
//! 1. `NO_COLOR` in force: no color, whatever else is set.
//! 2. `FORCE_COLOR` in force: the level it names, or 16 colors if it names
//!    none. The stream need not be a terminal.
//! 3. `CLICOLOR_FORCE` in force: 16 colors. The stream need not be a terminal.
//! 4. The stream is not a terminal: no color.
//! 5. Inside a multiplexer, the multiplexer decides and `COLORTERM` is not
//!    trusted: under tmux, true color if tmux reports the `Tc` flag and 256
//!    colors otherwise; under screen, 256 colors.
//! 6. Apple's Terminal: 256 colors.
//! 7. `COLORTERM` in force: true color.
//! 8. `TERM` names a terminal known for true color: true color.
//! 9. `TERM` holds `256color`: 256 colors.
//! 10. `TERM` is a terminal known for 16 colors: 16 colors.
//! 11. Otherwise: no color.

use crate::support::ColorSupport;
use crate::text::{contains, occurs};
use crate::var::{begins_with, holds, holds_token, is_token, level_of, truthy, TermVar};
use crate::vars::{Signals, TermVars};
use vstd::prelude::*;

verus! {

/// Something that can say whether a stream is attached to an interactive
/// terminal, rather than to a pipe, a file or another sink.
pub trait IsTerminal {
    /// Whether the stream is attached to an interactive terminal.
    fn is_terminal(&self) -> bool;
}

/// A stream that is always taken to be a terminal.
#[derive(Clone, Copy, Debug, Default)]
pub struct ForceTerminal;

/// A stream that is never taken to be a terminal.
#[derive(Clone, Copy, Debug, Default)]
pub struct ForceNoTerminal;

impl IsTerminal for ForceTerminal {
    fn is_terminal(&self) -> (r: bool)
        ensures
            r,
    {
        true
    }
}

impl IsTerminal for ForceNoTerminal {
    fn is_terminal(&self) -> (r: bool)
        ensures
            !r,
    {
        false
    }
}

/// A terminal multiplexer that is known to hide what the terminal behind it
/// can do.
#[derive(Clone, Copy, Debug, PartialEq, Eq, Structural)]
pub enum Multiplexer {
    /// tmux.
    Tmux,
    /// GNU screen.
    Screen,
}

/// The multiplexer that the session runs in, if any: tmux if `TERM` begins
/// with `tmux` or `TERM_PROGRAM` is `tmux`; else screen if `TERM` begins with
/// `screen`.
pub open spec fn multiplexer_of(s: Signals) -> Option<Multiplexer> {
    if begins_with(s.term, "tmux"@) || is_token(s.term_program, "tmux"@) {
        Some(Multiplexer::Tmux)
    } else if begins_with(s.term, "screen"@) {
        Some(Multiplexer::Screen)
    } else {
        None
    }
}

/// Whether tmux reported that the `Tc` flag is set.
pub open spec fn reports_true_color(tmux_info: Seq<char>) -> bool {
    occurs(tmux_info, "Tc: (flag) true"@)
}

/// Whether the terminal type names a terminal known for true color.
pub open spec fn names_true_color_terminal(term: Option<Seq<char>>) -> bool {
    ||| holds_token(term, "alacritty"@)
    ||| holds_token(term, "wezterm"@)
    ||| holds_token(term, "xterm-kitty"@)
}

/// Whether the terminal type is a terminal known for 16 colors.
pub open spec fn names_basic_terminal(term: Option<Seq<char>>) -> bool {
    is_token(term, "linux"@) || is_token(term, "xterm"@)
}

/// What `FORCE_COLOR` demands once it is in force: the level that it names,
/// and 16 colors if it names none.
pub open spec fn forced_level(force_color: Option<Seq<char>>) -> ColorSupport {
    match level_of(force_color) {
        Some(n) => if n == 0 {
            ColorSupport::NoColor
        } else if n == 1 {
            ColorSupport::Ansi16
        } else if n == 2 {
            ColorSupport::Ansi256
        } else {
            ColorSupport::TrueColor
        },
        None => ColorSupport::Ansi16,
    }
}

/// The verdict of the override variables, if one of them is in force.
pub open spec fn override_verdict(s: Signals) -> Option<ColorSupport> {
    if truthy(s.no_color) {
        Some(ColorSupport::NoColor)
    } else if truthy(s.force_color) {
        Some(forced_level(s.force_color))
    } else if truthy(s.clicolor_force) {
        Some(ColorSupport::Ansi16)
    } else {
        None
    }
}

/// What the terminal's identity says of a stream that is a terminal.
pub open spec fn inferred_verdict(s: Signals) -> ColorSupport {
    match multiplexer_of(s) {
        Some(Multiplexer::Tmux) => if reports_true_color(s.tmux_info) {
            ColorSupport::TrueColor
        } else {
            ColorSupport::Ansi256
        },
        Some(Multiplexer::Screen) => ColorSupport::Ansi256,
        None => if is_token(s.term_program, "apple_terminal"@) {
            ColorSupport::Ansi256
        } else if truthy(s.colorterm) {
            ColorSupport::TrueColor
        } else if names_true_color_terminal(s.term) {
            ColorSupport::TrueColor
        } else if holds(s.term, "256color"@) {
            ColorSupport::Ansi256
        } else if names_basic_terminal(s.term) {
            ColorSupport::Ansi16
        } else {
            ColorSupport::NoColor
        },
    }
}

/// The color support of a stream, given whether it is attached to a terminal
/// and the environment's signals.
pub open spec fn verdict(attached: bool, s: Signals) -> ColorSupport {
    match override_verdict(s) {
        Some(forced) => forced,
        None => if attached {
            inferred_verdict(s)
        } else {
            ColorSupport::NoColor
        },
    }
}

impl Multiplexer {
    /// The multiplexer that the session runs in, if any.
    pub fn detect(vars: &TermVars) -> (r: Option<Multiplexer>)
        ensures
            r == multiplexer_of(vars@),
    {
        if vars.meta.term.starts_with("tmux") || vars.meta.term_program.equals_ignored_case(
            "tmux",
        ) {
            Some(Multiplexer::Tmux)
        } else if vars.meta.term.starts_with("screen") {
            Some(Multiplexer::Screen)
        } else {
            None
        }
    }
}

/// Whether the terminal type names a terminal known for true color.
pub fn is_true_color_terminal(term: &TermVar) -> (r: bool)
    ensures
        r == names_true_color_terminal(term@),
{
    term.contains_ignored_case("alacritty") || term.contains_ignored_case("wezterm")
        || term.contains_ignored_case("xterm-kitty")
}

/// Whether the terminal type is a terminal known for 16 colors.
pub fn is_basic_terminal(term: &TermVar) -> (r: bool)
    ensures
        r == names_basic_terminal(term@),
{
    term.equals_ignored_case("linux") || term.equals_ignored_case("xterm")
}

impl ColorSupport {
    /// What `FORCE_COLOR` demands once it is in force.
    pub fn from_force_color(force_color: &TermVar) -> (r: ColorSupport)
        ensures
            r == forced_level(force_color@),
    {
        match force_color.as_level() {
            Some(0) => ColorSupport::NoColor,
            Some(2) => ColorSupport::Ansi256,
            Some(3) => ColorSupport::TrueColor,
            _ => ColorSupport::Ansi16,
        }
    }

    /// The verdict of the override variables, if one of them is in force.
    pub fn from_overrides(vars: &TermVars) -> (r: Option<ColorSupport>)
        ensures
            r == override_verdict(vars@),
    {
        if vars.overrides.no_color.is_truthy() {
            Some(ColorSupport::NoColor)
        } else if vars.overrides.force_color.is_truthy() {
            Some(ColorSupport::from_force_color(&vars.overrides.force_color))
        } else if vars.overrides.clicolor_force.is_truthy() {
            Some(ColorSupport::Ansi16)
        } else {
            None
        }
    }

    /// What the terminal's identity says of a stream that is a terminal.
    pub fn from_identity(vars: &TermVars) -> (r: ColorSupport)
        ensures
            r == inferred_verdict(vars@),
    {
        match Multiplexer::detect(vars) {
            Some(Multiplexer::Tmux) => {
                if contains(vars.tmux.tmux_info.as_str(), "Tc: (flag) true") {
                    ColorSupport::TrueColor
                } else {
                    ColorSupport::Ansi256
                }
            },
            Some(Multiplexer::Screen) => ColorSupport::Ansi256,
            None => {
                if vars.meta.term_program.equals_ignored_case("apple_terminal") {
                    ColorSupport::Ansi256
                } else if vars.meta.colorterm.is_truthy() {
                    ColorSupport::TrueColor
                } else if is_true_color_terminal(&vars.meta.term) {
                    ColorSupport::TrueColor
                } else if vars.meta.term.contains("256color") {
                    ColorSupport::Ansi256
                } else if is_basic_terminal(&vars.meta.term) {
                    ColorSupport::Ansi16
                } else {
                    ColorSupport::NoColor
                }
            },
        }
    }

    /// The color support of a stream, given whether it is attached to a
    /// terminal and the environment's signals.
    pub fn resolve(attached: bool, vars: &TermVars) -> (r: ColorSupport)
        ensures
            r == verdict(attached, vars@),
    {
        match ColorSupport::from_overrides(vars) {
            Some(forced) => forced,
            None => {
                if attached {
                    ColorSupport::from_identity(vars)
                } else {
                    ColorSupport::NoColor
                }
            },
        }
    }

    /// The color support of the stream `out` under the environment's
    /// signals.
    ///
    /// Where an override variable is in force it alone decides, and `out` is
    /// not asked. Otherwise `out` is asked once, and the verdict is that of
    /// [`ColorSupport::resolve`] for an answer that `out` can give: with a
    /// probe whose own contract fixes its answer, the verdict is fixed too.
    pub fn detect_with_vars<T: IsTerminal>(out: &T, vars: TermVars) -> (r: ColorSupport)
        ensures
            r == verdict(true, vars@) || r == verdict(false, vars@),
            override_verdict(vars@) matches Some(forced) ==> r == forced,
            override_verdict(vars@) is None ==> r == inferred_verdict(vars@) || r
                == ColorSupport::NoColor,
            override_verdict(vars@) is None ==> exists|b: bool| #[trigger]
                call_ensures(T::is_terminal, (out,), b) && r == verdict(b, vars@),
    {
        match ColorSupport::from_overrides(&vars) {
            Some(forced) => forced,
            None => ColorSupport::resolve(out.is_terminal(), &vars),
        }
    }
}

} // verus!
