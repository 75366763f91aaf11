use cosmostrix::colorize::colorize_help_detail;
use cosmostrix::help::{
    color_enabled, help_detail_text, CHARSETS_TABLE, list_charsets_text, list_colors_text, HELP_ENVIRONMENT,
    HELP_LIMITS, HELP_OPTIONS, HELP_RUNTIME_KEYS, HELP_VALUE_LISTS,
};

#[test]
fn charsets_plain_text() {
    let t = list_charsets_text(false);
    assert!(t.starts_with(
        "AVAILABLE CHARSET PRESETS:\nNOTE: Use only the VALUE (left side) with --charset.\n\nVALUE        DESCRIPTION\nauto         Auto-select"
    ));
    assert!(t.ends_with("braille      Braille\nrunic        Runic\n"));
    assert_eq!(t.lines().count(), 28);
    assert!(!t.contains('\x1b'));
}

#[test]
fn charsets_colour_title() {
    let t = list_charsets_text(true);
    assert!(t.starts_with(
        "\x1b[1;36mAVAILABLE CHARSET PRESETS:\x1b[0m\n\x1b[2mNOTE: Use only the VALUE (left side) with --charset.\x1b[0m\n\nVALUE"
    ));
    assert!(t.ends_with(CHARSETS_TABLE));
    assert!(list_charsets_text(false).ends_with(CHARSETS_TABLE));
}

#[test]
fn colors_plain_text() {
    let t = list_colors_text(false);
    assert!(t.starts_with(
        "AVAILABLE COLOR THEMES:\nNOTE: Use only the VALUE (left side) with --color.\n\nVALUE        DESCRIPTION\ngreen        Green theme\n"
    ));
    assert!(t.contains("fancy-diamond Fancy diamond theme\n"));
    assert!(t.ends_with("deepspace    Deep space theme\n"));
    assert_eq!(t.lines().count(), 47);
}

#[test]
fn colors_colour_title() {
    let t = list_colors_text(true);
    assert!(t.starts_with("\x1b[1;36mAVAILABLE COLOR THEMES:\x1b[0m\n\x1b[2mNOTE: Use only the VALUE (left side) with --color.\x1b[0m\n\n"));
    assert!(t.ends_with("deepspace    Deep space theme\n"));
}

#[test]
fn help_detail_plain_is_the_sections_in_order() {
    let expected = format!(
        "{}{}{}{}{}\n{}\n{}",
        HELP_OPTIONS,
        HELP_RUNTIME_KEYS,
        HELP_ENVIRONMENT,
        HELP_VALUE_LISTS,
        HELP_LIMITS,
        list_charsets_text(false),
        list_colors_text(false)
    );
    assert_eq!(help_detail_text(false), expected);
    assert!(help_detail_text(false).starts_with("USAGE:\n  cosmostrix [OPTIONS]\n\nCOMMON OPTIONS:\n"));
    assert!(!help_detail_text(false).contains('\x1b'));
}

#[test]
fn help_detail_colour_colours_sections_but_not_limits() {
    let expected = format!(
        "{}{}{}{}{}\n{}\n{}",
        colorize_help_detail(HELP_OPTIONS),
        colorize_help_detail(HELP_RUNTIME_KEYS),
        colorize_help_detail(HELP_ENVIRONMENT),
        colorize_help_detail(HELP_VALUE_LISTS),
        HELP_LIMITS,
        list_charsets_text(true),
        list_colors_text(true)
    );
    assert_eq!(help_detail_text(true), expected);
    assert!(help_detail_text(true).starts_with("\x1b[1;36mUSAGE:\x1b[0m\n  \x1b[1;34mcosmostrix\x1b[0m [OPTIONS]\n"));
    assert!(help_detail_text(true).contains("\n  --duration <seconds>     min 0.1 max 86400 (<=0 disables)\n"));
}

#[test]
fn help_limits_table() {
    assert!(HELP_LIMITS.starts_with("  --duration <seconds>     min 0.1 max 86400 (<=0 disables)\n"));
    assert!(HELP_LIMITS.ends_with("  --colormode <0|16|8|24>  allowed values only (8==256, 24==32)\n"));
    assert_eq!(HELP_LIMITS.lines().count(), 15);
}

#[test]
fn help_options_keep_quotes() {
    assert!(HELP_OPTIONS.contains("      Example: cosmostrix -m \"hello\"\n"));
    assert!(HELP_OPTIONS.contains("      Example: cosmostrix --chars \"01\"\n"));
    assert!(HELP_VALUE_LISTS.ends_with("LIMITS / VALID RANGES:\n"));
}

#[test]
fn colour_needs_a_terminal() {
    assert!(color_enabled(false, None, true));
    assert!(!color_enabled(false, None, false));
}

#[test]
fn no_color_disables_colour() {
    assert!(!color_enabled(true, None, true));
    assert!(!color_enabled(true, Some("1".to_string()), true));
}

#[test]
fn clicolor_zero_disables_colour() {
    assert!(!color_enabled(false, Some("0".to_string()), true));
    assert!(color_enabled(false, Some("1".to_string()), true));
    assert!(color_enabled(false, Some("00".to_string()), true));
    assert!(color_enabled(false, Some(String::new()), true));
}

/// Deletes every `ESC [ digits-and-semicolons m` sequence.
fn strip_sgr(s: &str) -> String {
    let c: Vec<char> = s.chars().collect();
    let mut out = String::new();
    let mut i = 0;
    while i < c.len() {
        if c[i] == '\x1b' && i + 1 < c.len() && c[i + 1] == '[' {
            let mut j = i + 2;
            while j < c.len() && (c[j].is_ascii_digit() || c[j] == ';') {
                j += 1;
            }
            if j < c.len() && c[j] == 'm' {
                i = j + 1;
                continue;
            }
        }
        out.push(c[i]);
        i += 1;
    }
    out
}

#[test]
fn coloured_help_strips_to_plain_help() {
    assert_eq!(strip_sgr(&help_detail_text(true)), help_detail_text(false));
    assert_eq!(strip_sgr(&list_charsets_text(true)), list_charsets_text(false));
    assert_eq!(strip_sgr(&list_colors_text(true)), list_colors_text(false));
}

#[test]
fn coloured_sections_strip_to_text() {
    for text in [HELP_OPTIONS, HELP_RUNTIME_KEYS, HELP_ENVIRONMENT, HELP_VALUE_LISTS] {
        assert_eq!(strip_sgr(&colorize_help_detail(text)), text);
    }
}
