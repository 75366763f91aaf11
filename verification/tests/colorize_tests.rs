use cosmostrix::colorize::colorize_help_detail;
use cosmostrix::help::{HELP_ENVIRONMENT, HELP_OPTIONS, HELP_RUNTIME_KEYS, HELP_VALUE_LISTS};

/// A straightforward line-by-line colourer used as an oracle.
fn oracle(text: &str) -> String {
    let mut out = String::new();
    for chunk in text.split_inclusive('\n') {
        let (line, nl) = match chunk.strip_suffix('\n') {
            Some(l) => (l, "\n"),
            None => (chunk, ""),
        };
        let heading =
            !line.starts_with(' ') && line.ends_with(':') && line == line.to_ascii_uppercase();
        if heading {
            out.push_str("\x1b[1;36m");
            out.push_str(line);
            out.push_str("\x1b[0m");
        } else if let Some(rest) = line.strip_prefix("      Example:") {
            out.push_str("      \x1b[32mExample:\x1b[0m");
            out.push_str(rest);
        } else if let Some(rest) = line.strip_prefix("  cosmostrix") {
            out.push_str("  \x1b[1;34mcosmostrix\x1b[0m");
            out.push_str(rest);
        } else if let Some(rest) = line.strip_prefix("  -") {
            out.push_str("  \x1b[33m-");
            out.push_str(rest);
            out.push_str("\x1b[0m");
        } else {
            out.push_str(line);
        }
        out.push_str(nl);
    }
    out
}

#[test]
fn heading_is_bold_cyan() {
    assert_eq!(colorize_help_detail("COMMON OPTIONS:\n"), "\x1b[1;36mCOMMON OPTIONS:\x1b[0m\n");
}

#[test]
fn heading_needs_upper_case_and_colon() {
    assert_eq!(colorize_help_detail("Common Options:\n"), "Common Options:\n");
    assert_eq!(colorize_help_detail("USAGE\n"), "USAGE\n");
    assert_eq!(colorize_help_detail(" USAGE:\n"), " USAGE:\n");
    assert_eq!(colorize_help_detail(":"), "\x1b[1;36m:\x1b[0m");
}

#[test]
fn example_line_is_green() {
    assert_eq!(
        colorize_help_detail("      Example: cosmostrix -s\n"),
        "      \x1b[32mExample:\x1b[0m cosmostrix -s\n"
    );
}

#[test]
fn command_line_has_blue_name() {
    assert_eq!(
        colorize_help_detail("  cosmostrix --list-colors\n"),
        "  \x1b[1;34mcosmostrix\x1b[0m --list-colors\n"
    );
}

#[test]
fn option_lines_are_yellow() {
    assert_eq!(
        colorize_help_detail("  -c, --color <name>\n"),
        "  \x1b[33m-c, --color <name>\x1b[0m\n"
    );
    assert_eq!(
        colorize_help_detail("  --charset <name>\n"),
        "  \x1b[33m--charset <name>\x1b[0m\n"
    );
}

#[test]
fn other_lines_are_kept() {
    assert_eq!(
        colorize_help_detail("      Set theme (see --list-colors).\n"),
        "      Set theme (see --list-colors).\n"
    );
    assert_eq!(colorize_help_detail(""), "");
    assert_eq!(colorize_help_detail("\n\n"), "\n\n");
}

#[test]
fn last_line_without_newline_is_coloured() {
    assert_eq!(colorize_help_detail("a\nHELP:"), "a\n\x1b[1;36mHELP:\x1b[0m");
}

#[test]
fn non_ascii_text_is_kept() {
    assert_eq!(colorize_help_detail("  Größe ✓\n"), "  Größe ✓\n");
    assert_eq!(
        colorize_help_detail("  -é\nÄ:\n"),
        "  \x1b[33m-é\x1b[0m\n\x1b[1;36mÄ:\x1b[0m\n"
    );
}

#[test]
fn help_sections_match_line_rules() {
    for text in [HELP_OPTIONS, HELP_RUNTIME_KEYS, HELP_ENVIRONMENT, HELP_VALUE_LISTS] {
        assert_eq!(colorize_help_detail(text), oracle(text));
    }
}

#[test]
fn colouring_twice_changes_nothing() {
    let once = colorize_help_detail(HELP_OPTIONS);
    assert_eq!(colorize_help_detail(&once), once);
}

#[test]
fn colouring_works_line_by_line() {
    let a = "USAGE:\n  cosmostrix [OPTIONS]\n";
    let b = "  -s\n      Example: x";
    let whole = format!("{}{}", a, b);
    assert_eq!(
        colorize_help_detail(&whole),
        format!("{}{}", colorize_help_detail(a), colorize_help_detail(b))
    );
}
