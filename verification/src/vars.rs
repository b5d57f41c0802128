//! The snapshot of environment signals that detection reads.
//!
//! A snapshot is plain data. It is filled once, before detection runs, and
//! detection reads nothing else.

use crate::var::TermVar;
use vstd::prelude::*;

verus! {

/// What a snapshot holds, as plain values: each variable's text or its
/// absence, and the text of the multiplexer's answer.
pub struct Signals {
    /// `TERM`.
    pub term: Option<Seq<char>>,
    /// `TERM_PROGRAM`.
    pub term_program: Option<Seq<char>>,
    /// `COLORTERM`.
    pub colorterm: Option<Seq<char>>,
    /// `NO_COLOR`.
    pub no_color: Option<Seq<char>>,
    /// `FORCE_COLOR`.
    pub force_color: Option<Seq<char>>,
    /// `CLICOLOR_FORCE`.
    pub clicolor_force: Option<Seq<char>>,
    /// What the multiplexer printed when asked for its capabilities.
    pub tmux_info: Seq<char>,
}

impl Signals {
    /// The snapshot in which nothing is set and the multiplexer said nothing.
    pub open spec fn empty() -> Signals {
        Signals {
            term: None,
            term_program: None,
            colorterm: None,
            no_color: None,
            force_color: None,
            clicolor_force: None,
            tmux_info: Seq::empty(),
        }
    }
}

/// The variables that say which terminal or multiplexer is in use.
#[derive(Clone, Debug)]
pub struct TermMetaVars {
    /// `TERM`: the terminal type.
    pub term: TermVar,
    /// `TERM_PROGRAM`: the terminal application.
    pub term_program: TermVar,
    /// `COLORTERM`: the terminal's own claim of true color.
    pub colorterm: TermVar,
}

/// The variables by which a user or a build system overrules detection.
#[derive(Clone, Debug)]
pub struct OverrideVars {
    /// `NO_COLOR`: no color, whatever else is set.
    pub no_color: TermVar,
    /// `FORCE_COLOR`: color even without a terminal, at a level if it names one.
    pub force_color: TermVar,
    /// `CLICOLOR_FORCE`: color even without a terminal.
    pub clicolor_force: TermVar,
}

/// What the terminal multiplexer reported about itself.
#[derive(Clone, Debug)]
pub struct TmuxVars {
    /// The text that the multiplexer printed when asked for its
    /// capabilities; empty if it was not asked or did not answer.
    pub tmux_info: String,
}

/// Every environment signal that detection reads.
#[derive(Clone, Debug)]
pub struct TermVars {
    /// Which terminal is in use.
    pub meta: TermMetaVars,
    /// What the user demands.
    pub overrides: OverrideVars,
    /// What the multiplexer reported.
    pub tmux: TmuxVars,
}

impl View for TermVars {
    type V = Signals;

    open spec fn view(&self) -> Signals {
        Signals {
            term: self.meta.term@,
            term_program: self.meta.term_program@,
            colorterm: self.meta.colorterm@,
            no_color: self.overrides.no_color@,
            force_color: self.overrides.force_color@,
            clicolor_force: self.overrides.clicolor_force@,
            tmux_info: self.tmux.tmux_info@,
        }
    }
}

impl Default for TermMetaVars {
    /// No variable set.
    fn default() -> (r: TermMetaVars)
        ensures
            r.term@ is None,
            r.term_program@ is None,
            r.colorterm@ is None,
    {
        TermMetaVars {
            term: TermVar::unset(),
            term_program: TermVar::unset(),
            colorterm: TermVar::unset(),
        }
    }
}

impl Default for OverrideVars {
    /// No variable set.
    fn default() -> (r: OverrideVars)
        ensures
            r.no_color@ is None,
            r.force_color@ is None,
            r.clicolor_force@ is None,
    {
        OverrideVars {
            no_color: TermVar::unset(),
            force_color: TermVar::unset(),
            clicolor_force: TermVar::unset(),
        }
    }
}

impl Default for TmuxVars {
    /// No answer from the multiplexer.
    fn default() -> (r: TmuxVars)
        ensures
            r.tmux_info@ == Seq::<char>::empty(),
    {
        TmuxVars { tmux_info: String::new() }
    }
}

impl Default for TermVars {
    /// The snapshot of a bare environment: nothing set, nothing reported.
    fn default() -> (r: TermVars)
        ensures
            r@ == Signals::empty(),
    {
        TermVars {
            meta: TermMetaVars::default(),
            overrides: OverrideVars::default(),
            tmux: TmuxVars::default(),
        }
    }
}

} // verus!
