//! What holds of the verdict on every snapshot.

use crate::detect::{
    forced_level, inferred_verdict, multiplexer_of, override_verdict, reports_true_color,
    verdict, Multiplexer,
};
use crate::support::ColorSupport;
use crate::var::{is_token, level_of, truthy};
use crate::vars::Signals;
use vstd::prelude::*;

verus! {

/// Every snapshot has a verdict, and it is one of the four supports.
pub proof fn verdict_is_on_the_scale(attached: bool, s: Signals)
    ensures
        verdict(attached, s).rank() <= 3,
        ColorSupport::of_level(verdict(attached, s).rank()) == Some(verdict(attached, s)),
{
}

/// `NO_COLOR` in force means no color, whatever the other variables say and
/// whether or not the stream is a terminal.
pub proof fn no_color_wins(attached: bool, s: Signals)
    requires
        truthy(s.no_color),
    ensures
        override_verdict(s) == Some(ColorSupport::NoColor),
        verdict(attached, s) == ColorSupport::NoColor,
{
}

/// `FORCE_COLOR` in force with a level gives the support of that level,
/// whether or not the stream is a terminal, unless `NO_COLOR` is in force.
pub proof fn force_color_level_decides(attached: bool, s: Signals)
    requires
        !truthy(s.no_color),
        truthy(s.force_color),
        level_of(s.force_color) is Some,
    ensures
        ColorSupport::of_level(level_of(s.force_color)->0) == Some(verdict(attached, s)),
        level_of(s.force_color) == Some(verdict(attached, s).rank()),
{
}

/// `FORCE_COLOR` in force without a level gives 16 colors, whether or not
/// the stream is a terminal, unless `NO_COLOR` is in force.
pub proof fn force_color_flag_gives_ansi16(attached: bool, s: Signals)
    requires
        !truthy(s.no_color),
        truthy(s.force_color),
        level_of(s.force_color) is None,
    ensures
        verdict(attached, s) == ColorSupport::Ansi16,
{
}

/// `CLICOLOR_FORCE` in force gives 16 colors, whether or not the stream is a
/// terminal, where `FORCE_COLOR` is not in force (not set, or set to the
/// empty string, `0` or `false`) and neither is `NO_COLOR`.
pub proof fn clicolor_force_gives_ansi16(attached: bool, s: Signals)
    requires
        !truthy(s.no_color),
        !truthy(s.force_color),
        truthy(s.clicolor_force),
    ensures
        verdict(attached, s) == ColorSupport::Ansi16,
{
}

/// `FORCE_COLOR` is asked before `CLICOLOR_FORCE`: with both in force the
/// verdict is that of `FORCE_COLOR`.
pub proof fn force_color_precedes_clicolor_force(attached: bool, s: Signals)
    requires
        !truthy(s.no_color),
        truthy(s.force_color),
    ensures
        verdict(attached, s) == forced_level(s.force_color),
{
}

/// A stream that is not a terminal gets no color unless a force variable is
/// in force, whatever `TERM` and `COLORTERM` say.
pub proof fn no_terminal_means_no_color(s: Signals)
    requires
        !truthy(s.force_color),
        !truthy(s.clicolor_force),
    ensures
        verdict(false, s) == ColorSupport::NoColor,
{
}

/// Where an override variable is in force, the verdict does not depend on
/// whether the stream is a terminal.
pub proof fn overrides_ignore_the_stream(s: Signals)
    requires
        override_verdict(s) is Some,
    ensures
        verdict(true, s) == verdict(false, s),
{
}

/// `COLORTERM` in force gives true color on a terminal, where no override
/// is in force, the session runs in no multiplexer and the terminal
/// application is not Apple's Terminal.
pub proof fn colorterm_gives_true_color(s: Signals)
    requires
        override_verdict(s) is None,
        multiplexer_of(s) is None,
        !is_token(s.term_program, "apple_terminal"@),
        truthy(s.colorterm),
    ensures
        verdict(true, s) == ColorSupport::TrueColor,
{
}

/// Inside a multiplexer the verdict does not depend on `COLORTERM`: two
/// snapshots that differ in nothing else have the same verdict.
pub proof fn multiplexer_ignores_colorterm(attached: bool, s: Signals, colorterm: Option<Seq<char>>)
    requires
        multiplexer_of(s) is Some,
    ensures
        verdict(attached, Signals { colorterm, ..s }) == verdict(attached, s),
{
    let t = Signals { colorterm, ..s };
    assert(multiplexer_of(t) == multiplexer_of(s));
}

/// Under tmux a terminal gets true color exactly if tmux reports the `Tc`
/// flag, and 256 colors otherwise; under screen it gets 256 colors.
pub proof fn multiplexer_decides(s: Signals)
    requires
        override_verdict(s) is None,
        multiplexer_of(s) is Some,
    ensures
        verdict(true, s) == (if multiplexer_of(s) == Some(Multiplexer::Tmux)
            && reports_true_color(s.tmux_info) {
            ColorSupport::TrueColor
        } else {
            ColorSupport::Ansi256
        }),
{
}

/// Any color at all needs a terminal or a force variable in force, and
/// `NO_COLOR` not in force; on a terminal with no override in force the
/// verdict is what the terminal's identity says.
pub proof fn color_needs_terminal_or_force(attached: bool, s: Signals)
    requires
        verdict(attached, s) != ColorSupport::NoColor,
    ensures
        attached || truthy(s.force_color) || truthy(s.clicolor_force),
        !truthy(s.no_color),
        attached && override_verdict(s) is None ==> verdict(attached, s) == inferred_verdict(s),
{
}

} // verus!
