use rustfs_launcher::sanitize::clean_ansi_codes;

#[test]
fn strips_simple_color_codes() {
    assert_eq!(clean_ansi_codes("\x1b[31mred\x1b[0m"), "red");
}

#[test]
fn strips_multi_parameter_codes() {
    assert_eq!(clean_ansi_codes("\x1b[1;32mbold green\x1b[0m text"), "bold green text");
}

#[test]
fn strips_empty_parameter_code() {
    assert_eq!(clean_ansi_codes("\x1b[mplain"), "plain");
}

#[test]
fn plain_text_is_unchanged() {
    let s = "a perfectly ordinary line of text, with [brackets] and 123 digits";
    assert_eq!(clean_ansi_codes(s), s);
}

#[test]
fn empty_input_stays_empty() {
    assert_eq!(clean_ansi_codes(""), "");
}

#[test]
fn malformed_escape_passes_through() {
    assert_eq!(clean_ansi_codes("\x1b[abc"), "\x1b[abc");
    assert_eq!(clean_ansi_codes("\x1b["), "\x1b[");
    assert_eq!(clean_ansi_codes("tail\x1b"), "tail\x1b");
    assert_eq!(clean_ansi_codes("\x1b[12;"), "\x1b[12;");
}

#[test]
fn non_m_terminator_passes_through() {
    assert_eq!(clean_ansi_codes("\x1b[2K"), "\x1b[2K");
}

#[test]
fn cleaning_twice_equals_cleaning_once() {
    let inputs = [
        "\x1b[31mred\x1b[0m",
        "no escapes here",
        "\x1b[1;33mwarn\x1b[0m and \x1b[34minfo\x1b[0m",
        "\x1b[broken",
        "",
    ];
    for s in inputs {
        let once = clean_ansi_codes(s);
        let twice = clean_ansi_codes(&once);
        assert_eq!(twice, once);
    }
}

#[test]
fn unicode_text_survives() {
    assert_eq!(clean_ansi_codes("\x1b[35münïcødé ✓\x1b[0m"), "ünïcødé ✓");
}

#[test]
fn removal_can_splice_a_new_escape_sequence() {
    // Removing the complete sequence here joins the leading "\x1b[" with
    // the trailing "m" into a new complete sequence, which only a second
    // pass removes: cleaning is idempotent exactly on inputs whose cleaned
    // form holds no residual sequence.
    let once = clean_ansi_codes("\x1b[\x1b[0mm");
    assert_eq!(once, "\x1b[m");
    assert_eq!(clean_ansi_codes(&once), "");
}
