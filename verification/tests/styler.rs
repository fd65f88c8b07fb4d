use srcerr::formatter::{AnsiColorStyler, PlainTextStyler, Styler};
use srcerr::{HighlightLevel, Severity};

fn written(write: fn(&mut String)) -> String {
    let mut buffer = String::new();
    write(&mut buffer);
    buffer
}

const BLUE_BOLD: &str = "\u{1b}[1;38;5;12m";
const RED_BOLD: &str = "\u{1b}[1;38;5;9m";
const YELLOW_BOLD: &str = "\u{1b}[1;33m";
const BOLD: &str = "\u{1b}[1m";
const RESET: &str = "\u{1b}[0m";

#[test]
fn plain_text_styler_writes_nothing() {
    let writers: [fn(&mut String); 24] = [
        PlainTextStyler::margin_begin,
        PlainTextStyler::margin_end,
        PlainTextStyler::error_code_begin,
        PlainTextStyler::error_code_end,
        PlainTextStyler::error_tag_begin,
        PlainTextStyler::error_tag_end,
        PlainTextStyler::error_description_begin,
        PlainTextStyler::error_description_end,
        PlainTextStyler::error_marker_begin,
        PlainTextStyler::error_marker_end,
        PlainTextStyler::hint_marker_begin,
        PlainTextStyler::hint_marker_end,
        PlainTextStyler::hint_error_begin,
        PlainTextStyler::hint_error_end,
        PlainTextStyler::hint_info_begin,
        PlainTextStyler::hint_info_end,
        PlainTextStyler::number_begin,
        PlainTextStyler::number_end,
        PlainTextStyler::path_begin,
        PlainTextStyler::path_end,
        PlainTextStyler::warning_marker_begin,
        PlainTextStyler::warning_marker_end,
        PlainTextStyler::warning_tag_begin,
        PlainTextStyler::warning_tag_end,
    ];
    for write in writers {
        assert_eq!("", written(write));
    }
}

#[test]
fn plain_text_styler_keeps_what_is_in_the_buffer() {
    let mut buffer = String::from("error");
    PlainTextStyler::error_tag_begin(&mut buffer);
    PlainTextStyler::error_tag_end(&mut buffer);
    assert_eq!("error", buffer);
}

#[test]
fn plain_text_styler_glyphs() {
    assert_eq!("\n", PlainTextStyler::NEWLINE);
    assert_eq!("|", PlainTextStyler::MARGIN_LINE);
    assert_eq!("^", PlainTextStyler::ERROR_MARKER);
    assert_eq!("|", PlainTextStyler::ERROR_MARKER_VERTICAL);
    assert_eq!("-", PlainTextStyler::HINT_MARKER);
}

#[test]
fn ansi_color_styler_glyphs() {
    assert_eq!("\n", AnsiColorStyler::NEWLINE);
    assert_eq!("|", AnsiColorStyler::MARGIN_LINE);
    assert_eq!("^", AnsiColorStyler::ERROR_MARKER);
    assert_eq!("|", AnsiColorStyler::ERROR_MARKER_VERTICAL);
    assert_eq!("-", AnsiColorStyler::HINT_MARKER);
}

#[test]
fn ansi_color_styler_margin_is_blue_bold() {
    assert_eq!(BLUE_BOLD, written(AnsiColorStyler::margin_begin));
    assert_eq!(RESET, written(AnsiColorStyler::margin_end));
}

#[test]
fn ansi_color_styler_error_code_is_bold() {
    assert_eq!(BOLD, written(AnsiColorStyler::error_code_begin));
    assert_eq!(RESET, written(AnsiColorStyler::error_code_end));
}

#[test]
fn ansi_color_styler_error_tag_is_red_bold() {
    assert_eq!(RED_BOLD, written(AnsiColorStyler::error_tag_begin));
    assert_eq!(RESET, written(AnsiColorStyler::error_tag_end));
}

#[test]
fn ansi_color_styler_error_description_is_bold() {
    assert_eq!(BOLD, written(AnsiColorStyler::error_description_begin));
    assert_eq!(RESET, written(AnsiColorStyler::error_description_end));
}

#[test]
fn ansi_color_styler_error_marker_is_red_bold() {
    assert_eq!(RED_BOLD, written(AnsiColorStyler::error_marker_begin));
    assert_eq!(RESET, written(AnsiColorStyler::error_marker_end));
}

#[test]
fn ansi_color_styler_hints_are_blue_bold() {
    assert_eq!(BLUE_BOLD, written(AnsiColorStyler::hint_marker_begin));
    assert_eq!(RESET, written(AnsiColorStyler::hint_marker_end));
    assert_eq!(BLUE_BOLD, written(AnsiColorStyler::hint_error_begin));
    assert_eq!(RESET, written(AnsiColorStyler::hint_error_end));
    assert_eq!(BLUE_BOLD, written(AnsiColorStyler::hint_info_begin));
    assert_eq!(RESET, written(AnsiColorStyler::hint_info_end));
}

#[test]
fn ansi_color_styler_numbers_and_paths_are_bold() {
    assert_eq!(BOLD, written(AnsiColorStyler::number_begin));
    assert_eq!(RESET, written(AnsiColorStyler::number_end));
    assert_eq!(BOLD, written(AnsiColorStyler::path_begin));
    assert_eq!(RESET, written(AnsiColorStyler::path_end));
}

#[test]
fn ansi_color_styler_warnings_are_yellow_bold() {
    assert_eq!(YELLOW_BOLD, written(AnsiColorStyler::warning_marker_begin));
    assert_eq!(RESET, written(AnsiColorStyler::warning_marker_end));
    assert_eq!(YELLOW_BOLD, written(AnsiColorStyler::warning_tag_begin));
    assert_eq!(RESET, written(AnsiColorStyler::warning_tag_end));
}

#[test]
fn ansi_color_styler_appends_to_what_is_there() {
    let mut buffer = String::from("  ");
    AnsiColorStyler::margin_begin(&mut buffer);
    buffer.push_str("-->");
    AnsiColorStyler::margin_end(&mut buffer);
    assert_eq!("  \u{1b}[1;38;5;12m-->\u{1b}[0m", buffer);
}

#[test]
fn highlight_level_follows_severity() {
    assert_eq!(HighlightLevel::Error, HighlightLevel::from(Severity::Deny));
    assert_eq!(HighlightLevel::Warning, HighlightLevel::from(Severity::Warning));
}
