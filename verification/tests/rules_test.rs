use color_support::numeral::parse_up_to;
use color_support::text::{
    chars_of, contains, contains_ignoring_case, equals_ignoring_case, find, fold_ascii,
    folded_chars_of, matches_at, starts_with,
};
use color_support::{
    ColorSupport, ForceNoTerminal, ForceTerminal, IsTerminal, Multiplexer, TermVar, TermVars,
};

fn vars_with(set: &[(&str, &str)]) -> TermVars {
    let mut vars = TermVars::default();
    for (name, value) in set {
        match *name {
            "TERM" => vars.meta.term = TermVar::new(value),
            "TERM_PROGRAM" => vars.meta.term_program = TermVar::new(value),
            "COLORTERM" => vars.meta.colorterm = TermVar::new(value),
            "NO_COLOR" => vars.overrides.no_color = TermVar::new(value),
            "FORCE_COLOR" => vars.overrides.force_color = TermVar::new(value),
            "CLICOLOR_FORCE" => vars.overrides.clicolor_force = TermVar::new(value),
            "TMUX_INFO" => vars.tmux.tmux_info = value.to_string(),
            other => panic!("no such signal: {}", other),
        }
    }
    vars
}

fn resolve(attached: bool, set: &[(&str, &str)]) -> ColorSupport {
    ColorSupport::resolve(attached, &vars_with(set))
}

fn level_of(text: &str) -> Option<u8> {
    TermVar::new(text).as_level()
}

#[test]
fn every_verdict_is_the_same_on_both_entry_points() {
    let snapshots: Vec<Vec<(&str, &str)>> = vec![
        vec![],
        vec![("NO_COLOR", "1"), ("FORCE_COLOR", "3")],
        vec![("FORCE_COLOR", "2")],
        vec![("CLICOLOR_FORCE", "yes")],
        vec![("TERM", "tmux-256color"), ("TMUX_INFO", "Tc: (flag) true")],
        vec![("TERM", "screen"), ("COLORTERM", "truecolor")],
        vec![("TERM_PROGRAM", "Apple_Terminal"), ("COLORTERM", "truecolor")],
        vec![("COLORTERM", "24bit")],
        vec![("TERM", "xterm-kitty")],
        vec![("TERM", "xterm-256color")],
        vec![("TERM", "xterm")],
        vec![("TERM", "dumb")],
    ];
    for set in snapshots {
        assert_eq!(
            ColorSupport::detect_with_vars(&ForceTerminal, vars_with(&set)),
            resolve(true, &set)
        );
        assert_eq!(
            ColorSupport::detect_with_vars(&ForceNoTerminal, vars_with(&set)),
            resolve(false, &set)
        );
    }
}

#[test]
fn library_probes_answer_as_named() {
    assert!(ForceTerminal.is_terminal());
    assert!(!ForceNoTerminal.is_terminal());
}

#[test]
fn no_color_wins_over_both_force_variables() {
    let set = [("NO_COLOR", "1"), ("FORCE_COLOR", "3"), ("CLICOLOR_FORCE", "1")];
    assert_eq!(ColorSupport::NoColor, resolve(true, &set));
    assert_eq!(ColorSupport::NoColor, resolve(false, &set));
    let set = [("NO_COLOR", "yes"), ("COLORTERM", "truecolor"), ("TERM", "alacritty")];
    assert_eq!(ColorSupport::NoColor, resolve(true, &set));
}

#[test]
fn no_color_off_values_do_not_disable() {
    for off in ["", "0", "false", "FALSE", "False"] {
        let set = [("NO_COLOR", off), ("COLORTERM", "truecolor")];
        assert_eq!(ColorSupport::TrueColor, resolve(true, &set), "NO_COLOR={:?}", off);
    }
}

#[test]
fn force_color_levels_map_to_supports() {
    for attached in [true, false] {
        assert_eq!(ColorSupport::NoColor, resolve(attached, &[("FORCE_COLOR", "00")]));
        assert_eq!(ColorSupport::NoColor, resolve(attached, &[("FORCE_COLOR", "+0")]));
        assert_eq!(ColorSupport::Ansi16, resolve(attached, &[("FORCE_COLOR", "1")]));
        assert_eq!(ColorSupport::Ansi256, resolve(attached, &[("FORCE_COLOR", "2")]));
        assert_eq!(ColorSupport::TrueColor, resolve(attached, &[("FORCE_COLOR", "3")]));
        assert_eq!(ColorSupport::TrueColor, resolve(attached, &[("FORCE_COLOR", "003")]));
    }
}

#[test]
fn force_color_without_a_level_is_a_flag() {
    for flag in ["true", "yes", "4", "256", "-1", "1.0", " 2", "2 ", "on"] {
        assert_eq!(
            ColorSupport::Ansi16,
            resolve(false, &[("FORCE_COLOR", flag)]),
            "FORCE_COLOR={:?}",
            flag
        );
    }
}

#[test]
fn force_color_off_values_do_not_force() {
    for off in ["", "0", "false", "FaLsE"] {
        assert_eq!(ColorSupport::NoColor, resolve(false, &[("FORCE_COLOR", off)]));
        assert_eq!(
            ColorSupport::Ansi256,
            resolve(true, &[("FORCE_COLOR", off), ("TERM", "xterm-256color")])
        );
    }
}

#[test]
fn force_color_is_asked_before_clicolor_force() {
    let set = [("FORCE_COLOR", "3"), ("CLICOLOR_FORCE", "1")];
    assert_eq!(ColorSupport::TrueColor, resolve(false, &set));
    let set = [("FORCE_COLOR", "0"), ("CLICOLOR_FORCE", "1")];
    assert_eq!(ColorSupport::Ansi16, resolve(false, &set));
}

#[test]
fn clicolor_force_gives_sixteen_colors_anywhere() {
    assert_eq!(ColorSupport::Ansi16, resolve(false, &[("CLICOLOR_FORCE", "1")]));
    let set = [("CLICOLOR_FORCE", "1"), ("COLORTERM", "truecolor"), ("TERM", "alacritty")];
    assert_eq!(ColorSupport::Ansi16, resolve(true, &set));
}

#[test]
fn no_terminal_means_no_color_without_force() {
    let set = [
        ("TERM", "xterm-kitty"),
        ("COLORTERM", "truecolor"),
        ("TERM_PROGRAM", "tmux"),
        ("TMUX_INFO", "Tc: (flag) true"),
    ];
    assert_eq!(ColorSupport::NoColor, resolve(false, &set));
}

#[test]
fn multiplexer_is_recognised() {
    assert_eq!(Some(Multiplexer::Tmux), Multiplexer::detect(&vars_with(&[("TERM", "tmux")])));
    assert_eq!(
        Some(Multiplexer::Tmux),
        Multiplexer::detect(&vars_with(&[("TERM", "screen-256color"), ("TERM_PROGRAM", "TMUX")]))
    );
    assert_eq!(
        Some(Multiplexer::Screen),
        Multiplexer::detect(&vars_with(&[("TERM", "screen-256color")]))
    );
    assert_eq!(None, Multiplexer::detect(&vars_with(&[("TERM", "xterm-screen")])));
    assert_eq!(None, Multiplexer::detect(&vars_with(&[("TERM", "TMUX-256color")])));
    assert_eq!(None, Multiplexer::detect(&vars_with(&[("TERM_PROGRAM", "tmux2")])));
    assert_eq!(None, Multiplexer::detect(&TermVars::default()));
}

#[test]
fn tmux_needs_the_flag_for_true_color() {
    let tmux = ("TERM", "tmux-256color");
    assert_eq!(ColorSupport::Ansi256, resolve(true, &[tmux]));
    assert_eq!(ColorSupport::Ansi256, resolve(true, &[tmux, ("TMUX_INFO", "Tc: [missing]")]));
    assert_eq!(ColorSupport::Ansi256, resolve(true, &[tmux, ("TMUX_INFO", "tc: (flag) true")]));
    let info = " 201: Tc: (flag) true\n 202: RGB: [missing]\n";
    assert_eq!(ColorSupport::TrueColor, resolve(true, &[tmux, ("TMUX_INFO", info)]));
    let set = [tmux, ("TMUX_INFO", info), ("TERM_PROGRAM", "apple_terminal")];
    assert_eq!(ColorSupport::TrueColor, resolve(true, &set));
}

#[test]
fn the_flag_counts_only_under_tmux() {
    let info = ("TMUX_INFO", "Tc: (flag) true");
    assert_eq!(ColorSupport::NoColor, resolve(true, &[info]));
    assert_eq!(ColorSupport::Ansi256, resolve(true, &[("TERM", "screen"), info]));
    assert_eq!(ColorSupport::Ansi16, resolve(true, &[("TERM", "xterm"), info]));
}

#[test]
fn apple_terminal_caps_at_256_colors() {
    let set = [("TERM_PROGRAM", "Apple_Terminal"), ("COLORTERM", "truecolor")];
    assert_eq!(ColorSupport::Ansi256, resolve(true, &set));
    let set = [("TERM_PROGRAM", "apple_terminal"), ("TERM", "alacritty")];
    assert_eq!(ColorSupport::Ansi256, resolve(true, &set));
}

#[test]
fn colorterm_off_values_are_no_signal() {
    for off in ["", "0", "false"] {
        assert_eq!(ColorSupport::NoColor, resolve(true, &[("COLORTERM", off)]));
        assert_eq!(ColorSupport::Ansi16, resolve(true, &[("COLORTERM", off), ("TERM", "linux")]));
    }
}

#[test]
fn terminal_names_ignore_case_where_the_rule_says_so() {
    assert_eq!(ColorSupport::TrueColor, resolve(true, &[("TERM", "Alacritty-direct")]));
    assert_eq!(ColorSupport::TrueColor, resolve(true, &[("TERM", "my-WezTerm")]));
    assert_eq!(ColorSupport::Ansi16, resolve(true, &[("TERM", "LINUX")]));
    assert_eq!(ColorSupport::Ansi16, resolve(true, &[("TERM", "XTerm")]));
    assert_eq!(ColorSupport::NoColor, resolve(true, &[("TERM", "xterm-color")]));
    assert_eq!(ColorSupport::NoColor, resolve(true, &[("TERM", "linux-16color")]));
    assert_eq!(ColorSupport::Ansi256, resolve(true, &[("TERM", "rxvt-256color")]));
    assert_eq!(ColorSupport::NoColor, resolve(true, &[("TERM", "rxvt-256COLOR")]));
    assert_eq!(ColorSupport::NoColor, resolve(true, &[("TERM", "")]));
}

#[test]
fn true_color_name_precedes_256color() {
    assert_eq!(ColorSupport::TrueColor, resolve(true, &[("TERM", "alacritty-256color")]));
}

#[test]
fn levels_agree_with_the_standard_parser() {
    let texts = [
        "", "+", "-", "0", "1", "2", "3", "4", "9", "00", "01", "+1", "+03", "-0", "-1", "10",
        "255", "256", "0000000000000000000000002", "99999999999999999999999", "1a", "a1", " 1",
        "1 ", "1_0", "++1", "+-1", "0x1", "١", "３",
    ];
    for text in texts {
        let expected = match text.parse::<u8>() {
            Ok(n) if n <= 3 => Some(n),
            _ => None,
        };
        assert_eq!(expected, level_of(text), "{:?}", text);
    }
    assert_eq!(None, TermVar::unset().as_level());
}

#[test]
fn parse_up_to_respects_the_bound() {
    let text: Vec<char> = "200".chars().collect();
    assert_eq!(Some(200), parse_up_to(&text, 255));
    assert_eq!(Some(200), parse_up_to(&text, 200));
    assert_eq!(None, parse_up_to(&text, 199));
    let text: Vec<char> = "255".chars().collect();
    assert_eq!(Some(255), parse_up_to(&text, 255));
    let text: Vec<char> = "256".chars().collect();
    assert_eq!(None, parse_up_to(&text, 255));
    assert_eq!(Some(0), parse_up_to(&['0'], 0));
    assert_eq!(None, parse_up_to(&['1'], 0));
    assert_eq!(None, parse_up_to(&[], 255));
}

#[test]
fn term_var_reads() {
    let unset = TermVar::unset();
    assert!(!unset.is_set());
    assert!(!unset.is_truthy());
    assert_eq!(None, unset.value());
    assert!(!unset.equals_ignored_case(""));
    assert!(!unset.contains_ignored_case(""));
    assert!(!unset.contains(""));
    assert!(!unset.starts_with(""));
    assert!(!TermVar::default().is_set());
    assert!(!TermVar::from_option(None).is_set());

    let empty = TermVar::new("");
    assert!(empty.is_set());
    assert!(!empty.is_truthy());
    assert_eq!(Some(""), empty.value());
    assert!(empty.equals_ignored_case(""));
    assert!(empty.starts_with(""));

    let var = TermVar::from_option(Some("XTerm-Kitty".to_string()));
    assert!(var.is_set());
    assert!(var.is_truthy());
    assert_eq!(Some("XTerm-Kitty"), var.value());
    assert!(var.equals_ignored_case("xterm-kitty"));
    assert!(!var.equals_ignored_case("xterm-kitt"));
    assert!(var.contains_ignored_case("KITTY"));
    assert!(var.contains("Kitty"));
    assert!(!var.contains("kitty"));
    assert!(var.starts_with("XTerm"));
    assert!(!var.starts_with("xterm"));
    assert_eq!(Some("XTerm-Kitty"), var.clone().value());
}

#[test]
fn truthiness() {
    for on in ["1", "true", "yes", "2", " ", "00", "no", "falsee", "0 "] {
        assert!(TermVar::new(on).is_truthy(), "{:?}", on);
    }
    for off in ["", "0", "false", "FALSE", "fAlSe"] {
        assert!(!TermVar::new(off).is_truthy(), "{:?}", off);
    }
}

#[test]
fn text_matching() {
    assert_eq!(vec!['a', 'é', '😀'], chars_of("aé😀"));
    assert_eq!(Vec::<char>::new(), chars_of(""));
    assert_eq!(vec!['a', 'z', 'é', 'É', '1', '_'], folded_chars_of("AZéÉ1_"));
    assert_eq!('a', fold_ascii('A'));
    assert_eq!('z', fold_ascii('Z'));
    assert_eq!('@', fold_ascii('@'));
    assert_eq!('[', fold_ascii('['));
    assert_eq!('\u{212A}', fold_ascii('\u{212A}'));
    assert_eq!('k', fold_ascii('K'));
    for c in ['\0', ' ', '0', 'a', 'm', 'A', 'M', 'Z', '`', '{', 'İ', 'ß'] {
        assert_eq!(c.to_ascii_lowercase(), fold_ascii(c));
    }

    assert!(starts_with("tmux-256color", "tmux"));
    assert!(starts_with("tmux", "tmux"));
    assert!(starts_with("tmux", ""));
    assert!(!starts_with("tmu", "tmux"));
    assert!(!starts_with("xtmux", "tmux"));

    assert!(contains("xterm-256color", "256color"));
    assert!(contains("256color", "256color"));
    assert!(contains("abc", ""));
    assert!(contains("", ""));
    assert!(!contains("", "a"));
    assert!(!contains("256colo", "256color"));
    assert!(!contains("xterm-256COLOR", "256color"));
    assert!(contains("ééa", "éa"));

    assert!(contains_ignoring_case("XTERM-KITTY", "xterm-kitty"));
    assert!(contains_ignoring_case("my-Alacritty", "ALACRITTY"));
    assert!(!contains_ignoring_case("alacrity", "alacritty"));

    assert!(equals_ignoring_case("Apple_Terminal", "apple_terminal"));
    assert!(equals_ignoring_case("", ""));
    assert!(!equals_ignoring_case("apple_terminal ", "apple_terminal"));
    assert!(!equals_ignoring_case("", "a"));
    assert!(!equals_ignoring_case("É", "é"));
}

#[test]
fn find_gives_the_first_position() {
    let hay: Vec<char> = "abcabc".chars().collect();
    let bc: Vec<char> = "bc".chars().collect();
    assert_eq!(Some(1), find(&hay, &bc));
    assert_eq!(Some(0), find(&hay, &[]));
    assert_eq!(Some(0), find(&[], &[]));
    assert_eq!(None, find(&hay, &['c', 'b']));
    assert_eq!(None, find(&bc, &hay));
    assert_eq!(Some(0), find(&hay, &['a', 'b', 'c']));
    assert!(matches_at(&hay, &['a', 'b', 'c'], 3));
    assert!(matches_at(&hay, &bc, 4));
    assert!(!matches_at(&hay, &bc, 5));
    assert!(!matches_at(&hay, &bc, 0));
    assert!(matches_at(&hay, &[], 6));
    assert!(!matches_at(&hay, &[], 7));
    assert!(!matches_at(&hay, &bc, usize::MAX));
}

#[test]
fn the_scale_is_ordered() {
    let scale = [
        ColorSupport::NoColor,
        ColorSupport::Ansi16,
        ColorSupport::Ansi256,
        ColorSupport::TrueColor,
    ];
    for (i, a) in scale.iter().enumerate() {
        assert_eq!(i as u8, a.level());
        assert_eq!(Some(*a), ColorSupport::from_level(i as u8));
        for (j, b) in scale.iter().enumerate() {
            assert_eq!(i < j, a < b);
            assert_eq!(i <= j, a <= b);
            assert_eq!(i == j, a == b);
            assert_eq!(i >= j, a.at_least(*b));
            assert_eq!(i.cmp(&j), a.cmp(b));
            assert_eq!(Some(i.cmp(&j)), a.partial_cmp(b));
        }
    }
    assert_eq!(None, ColorSupport::from_level(4));
    assert_eq!(None, ColorSupport::from_level(255));
    assert!(ColorSupport::Ansi256 >= ColorSupport::Ansi16);
    assert_eq!(ColorSupport::TrueColor, scale.iter().copied().max().unwrap());
}

#[test]
fn default_snapshot_is_empty() {
    let vars = TermVars::default();
    assert!(!vars.meta.term.is_set());
    assert!(!vars.meta.term_program.is_set());
    assert!(!vars.meta.colorterm.is_set());
    assert!(!vars.overrides.no_color.is_set());
    assert!(!vars.overrides.force_color.is_set());
    assert!(!vars.overrides.clicolor_force.is_set());
    assert_eq!("", vars.tmux.tmux_info);
    assert_eq!(None, ColorSupport::from_overrides(&vars));
    assert_eq!(ColorSupport::NoColor, ColorSupport::from_identity(&vars));
}

#[test]
fn a_probe_is_not_asked_when_an_override_decides() {
    struct Untouchable;
    impl IsTerminal for Untouchable {
        fn is_terminal(&self) -> bool {
            panic!("the stream was asked")
        }
    }
    let support = ColorSupport::detect_with_vars(&Untouchable, vars_with(&[("FORCE_COLOR", "3")]));
    assert_eq!(ColorSupport::TrueColor, support);
    let support = ColorSupport::detect_with_vars(&Untouchable, vars_with(&[("NO_COLOR", "1")]));
    assert_eq!(ColorSupport::NoColor, support);
}
