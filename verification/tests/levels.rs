//! Log levels and their colours.

use rpi_display::logger::LogLevel;

#[test]
fn ansi_codes_per_level() {
    assert_eq!(LogLevel::Trace.ansi_code(), 8);
    assert_eq!(LogLevel::Debug.ansi_code(), 27);
    assert_eq!(LogLevel::Info.ansi_code(), 7);
    assert_eq!(LogLevel::Warning.ansi_code(), 11);
    assert_eq!(LogLevel::Error.ansi_code(), 9);
    assert_eq!(LogLevel::Critical.ansi_code(), 1);
}

#[test]
fn names_per_level() {
    assert_eq!(LogLevel::Trace.name(), "trace");
    assert_eq!(LogLevel::Debug.name(), "debug");
    assert_eq!(LogLevel::Info.name(), "info");
    assert_eq!(LogLevel::Warning.name(), "warning");
    assert_eq!(LogLevel::Error.name(), "error");
    assert_eq!(LogLevel::Critical.name(), "critical");
}

#[test]
fn suffix_is_empty() {
    assert_eq!(LogLevel::Warning.suffix(), "");
}

#[test]
fn wraps_in_the_level_colour() {
    assert_eq!(
        LogLevel::Warning.wraps(false, "careful"),
        "\u{1b}[38:5:11mcareful\u{1b}[39m"
    );
}

#[test]
fn wraps_bold_brackets_the_text() {
    assert_eq!(
        LogLevel::Error.wraps(true, "ERROR"),
        "\u{1b}[38:5:9m\u{1b}[1mERROR\u{1b}[22m\u{1b}[39m"
    );
    assert_eq!(
        LogLevel::Trace.wraps(true, ""),
        "\u{1b}[38:5:8m\u{1b}[1m\u{1b}[22m\u{1b}[39m"
    );
}

#[test]
fn wrapped_name_embeds_the_ansi_code() {
    for level in [
        LogLevel::Trace,
        LogLevel::Debug,
        LogLevel::Info,
        LogLevel::Warning,
        LogLevel::Error,
        LogLevel::Critical,
    ] {
        let wrapped = level.wraps(false, level.name());
        let expected = format!("\u{1b}[38:5:{}m{}\u{1b}[39m", level.ansi_code(), level.name());
        assert_eq!(wrapped, expected);
    }
}
