use vstd::prelude::*;
use vstd::string::*;

use crate::formatter::styler::{StyledPart, Styler};
use crate::text::decimal;

verus! {

/// A colour of the terminal's palette.
#[derive(Clone, Copy, Debug, PartialEq, Eq, Structural)]
pub enum AnsiColor {
    /// The terminal's yellow.
    Yellow,
    /// A colour by its number in the palette of 256.
    Fixed(u8),
}

/// How a piece of text looks on a terminal: its colour, and whether it is
/// bold.
#[derive(Clone, Copy, Debug, PartialEq, Eq, Structural)]
pub struct AnsiStyle {
    /// The colour of the text, if it is not the terminal's own.
    pub foreground: Option<AnsiColor>,
    /// Whether the text is bold.
    pub is_bold: bool,
}

impl AnsiStyle {
    /// Whether the style changes nothing.
    pub open spec fn is_plain(&self) -> bool {
        self.foreground is None && !self.is_bold
    }
}

/// The number code that selects `color` as the colour of the text.
pub open spec fn foreground_code(color: AnsiColor) -> Seq<char> {
    match color {
        AnsiColor::Yellow => "33"@,
        AnsiColor::Fixed(number) => "38;5;"@ + decimal(number as nat),
    }
}

/// The escape sequence that switches a terminal to `style`: the codes of
/// the style, separated by semicolons, between `ESC [` and `m`. A style that
/// changes nothing has no escape sequence at all.
pub open spec fn prefix_text(style: AnsiStyle) -> Seq<char> {
    if style.is_plain() {
        Seq::empty()
    } else {
        "\x1b["@ + (if style.is_bold {
            "1"@
        } else {
            Seq::empty()
        }) + (if style.is_bold && style.foreground is Some {
            ";"@
        } else {
            Seq::empty()
        }) + (match style.foreground {
            Some(color) => foreground_code(color),
            None => Seq::empty(),
        }) + "m"@
    }
}

/// The escape sequence that switches a terminal back from `style` to its
/// normal looks; nothing where the style changes nothing.
pub open spec fn suffix_text(style: AnsiStyle) -> Seq<char> {
    if style.is_plain() {
        Seq::empty()
    } else {
        "\x1b[0m"@
    }
}

/// Calls `ansi_term::Style::prefix` for the style with the given colour and
/// weight and nothing else set, and returns what it displays.
///
/// Trusted: that this is `ESC [`, then `1` if the style is bold, then the
/// code of the colour if it has one, with a semicolon between the two, then
/// `m`; and that it is empty for a style that sets nothing.
#[verifier::external_body]
fn prefix(style: AnsiStyle) -> (text: String)
    ensures
        text@ == prefix_text(style),
{
    let foreground = match style.foreground {
        Some(AnsiColor::Yellow) => Some(ansi_term::Colour::Yellow),
        Some(AnsiColor::Fixed(number)) => Some(ansi_term::Colour::Fixed(number)),
        None => None,
    };
    let style = ansi_term::Style { foreground, is_bold: style.is_bold, ..Default::default() };
    style.prefix().to_string()
}

/// Calls `ansi_term::Style::suffix` for the style with the given colour and
/// weight and nothing else set, and returns what it displays.
///
/// Trusted: that this is the reset sequence `ESC [ 0 m`, and that it is
/// empty for a style that sets nothing.
#[verifier::external_body]
fn suffix(style: AnsiStyle) -> (text: String)
    ensures
        text@ == suffix_text(style),
{
    let foreground = match style.foreground {
        Some(AnsiColor::Yellow) => Some(ansi_term::Colour::Yellow),
        Some(AnsiColor::Fixed(number)) => Some(ansi_term::Colour::Fixed(number)),
        None => None,
    };
    let style = ansi_term::Style { foreground, is_bold: style.is_bold, ..Default::default() };
    style.suffix().to_string()
}

/// Bold, in the bright blue of the palette.
pub open spec fn blue_bold() -> AnsiStyle {
    AnsiStyle { foreground: Some(AnsiColor::Fixed(12)), is_bold: true }
}

/// Bold, in the bright red of the palette.
pub open spec fn red_bold() -> AnsiStyle {
    AnsiStyle { foreground: Some(AnsiColor::Fixed(9)), is_bold: true }
}

/// Bold, in the terminal's yellow.
pub open spec fn yellow_bold() -> AnsiStyle {
    AnsiStyle { foreground: Some(AnsiColor::Yellow), is_bold: true }
}

/// Bold, in the terminal's own colour.
pub open spec fn bold() -> AnsiStyle {
    AnsiStyle { foreground: None, is_bold: true }
}

/// The style in which the ANSI styler shows `part`.
pub open spec fn style_of(part: StyledPart) -> AnsiStyle {
    match part {
        StyledPart::Margin
        | StyledPart::HintMarker
        | StyledPart::HintError
        | StyledPart::HintInfo => blue_bold(),
        StyledPart::ErrorTag
        | StyledPart::ErrorMarker => red_bold(),
        StyledPart::WarningMarker
        | StyledPart::WarningTag => yellow_bold(),
        StyledPart::ErrorCode
        | StyledPart::ErrorDescription
        | StyledPart::Number
        | StyledPart::Path => bold(),
    }
}

/// Styles the text with ANSI escape codes, in bold and colour.
#[derive(Debug)]
pub struct AnsiColorStyler;

impl AnsiColorStyler {
    /// Switches the terminal to the style of `part`.
    fn begin(buffer: &mut String, part: StyledPart)
        ensures
            final(buffer)@ == old(buffer)@ + prefix_text(style_of(part)),
    {
        let text = prefix(Self::style(part));
        buffer.append(text.as_str());
    }

    /// Switches the terminal back from the style of `part`.
    fn end(buffer: &mut String, part: StyledPart)
        ensures
            final(buffer)@ == old(buffer)@ + suffix_text(style_of(part)),
    {
        let text = suffix(Self::style(part));
        buffer.append(text.as_str());
    }

    /// Returns the style in which `part` is shown.
    fn style(part: StyledPart) -> (style: AnsiStyle)
        ensures
            style == style_of(part),
    {
        let bright_blue = Some(AnsiColor::Fixed(12));
        let bright_red = Some(AnsiColor::Fixed(9));
        let yellow = Some(AnsiColor::Yellow);
        let foreground = match part {
            StyledPart::Margin
            | StyledPart::HintMarker
            | StyledPart::HintError
            | StyledPart::HintInfo => bright_blue,
            StyledPart::ErrorTag
            | StyledPart::ErrorMarker => bright_red,
            StyledPart::WarningMarker
            | StyledPart::WarningTag => yellow,
            StyledPart::ErrorCode
            | StyledPart::ErrorDescription
            | StyledPart::Number
            | StyledPart::Path => None,
        };
        AnsiStyle { foreground, is_bold: true }
    }
}

impl Styler for AnsiColorStyler {
    const NEWLINE: &'static str = "\n";

    const MARGIN_LINE: &'static str = "|";

    const ERROR_MARKER: &'static str = "^";

    const ERROR_MARKER_VERTICAL: &'static str = "|";

    const HINT_MARKER: &'static str = "-";

    open spec fn begin_token(part: StyledPart) -> Seq<char> {
        prefix_text(style_of(part))
    }

    open spec fn end_token(part: StyledPart) -> Seq<char> {
        suffix_text(style_of(part))
    }

    fn margin_begin(buffer: &mut String) {
        Self::begin(buffer, StyledPart::Margin);
    }

    fn margin_end(buffer: &mut String) {
        Self::end(buffer, StyledPart::Margin);
    }

    fn error_code_begin(buffer: &mut String) {
        Self::begin(buffer, StyledPart::ErrorCode);
    }

    fn error_code_end(buffer: &mut String) {
        Self::end(buffer, StyledPart::ErrorCode);
    }

    fn error_tag_begin(buffer: &mut String) {
        Self::begin(buffer, StyledPart::ErrorTag);
    }

    fn error_tag_end(buffer: &mut String) {
        Self::end(buffer, StyledPart::ErrorTag);
    }

    fn error_description_begin(buffer: &mut String) {
        Self::begin(buffer, StyledPart::ErrorDescription);
    }

    fn error_description_end(buffer: &mut String) {
        Self::end(buffer, StyledPart::ErrorDescription);
    }

    fn error_marker_begin(buffer: &mut String) {
        Self::begin(buffer, StyledPart::ErrorMarker);
    }

    fn error_marker_end(buffer: &mut String) {
        Self::end(buffer, StyledPart::ErrorMarker);
    }

    fn hint_marker_begin(buffer: &mut String) {
        Self::begin(buffer, StyledPart::HintMarker);
    }

    fn hint_marker_end(buffer: &mut String) {
        Self::end(buffer, StyledPart::HintMarker);
    }

    fn hint_error_begin(buffer: &mut String) {
        Self::begin(buffer, StyledPart::HintError);
    }

    fn hint_error_end(buffer: &mut String) {
        Self::end(buffer, StyledPart::HintError);
    }

    fn hint_info_begin(buffer: &mut String) {
        Self::begin(buffer, StyledPart::HintInfo);
    }

    fn hint_info_end(buffer: &mut String) {
        Self::end(buffer, StyledPart::HintInfo);
    }

    fn number_begin(buffer: &mut String) {
        Self::begin(buffer, StyledPart::Number);
    }

    fn number_end(buffer: &mut String) {
        Self::end(buffer, StyledPart::Number);
    }

    fn path_begin(buffer: &mut String) {
        Self::begin(buffer, StyledPart::Path);
    }

    fn path_end(buffer: &mut String) {
        Self::end(buffer, StyledPart::Path);
    }

    fn warning_marker_begin(buffer: &mut String) {
        Self::begin(buffer, StyledPart::WarningMarker);
    }

    fn warning_marker_end(buffer: &mut String) {
        Self::end(buffer, StyledPart::WarningMarker);
    }

    fn warning_tag_begin(buffer: &mut String) {
        Self::begin(buffer, StyledPart::WarningTag);
    }

    fn warning_tag_end(buffer: &mut String) {
        Self::end(buffer, StyledPart::WarningTag);
    }
}

/// The glyphs of the ANSI styler, which are those of plain text: a line
/// feed ends a line, `|` draws the margin and connects markers to a column
/// number, `^` marks an error and `-` a hint.
pub proof fn lemma_ansi_color_glyphs()
    ensures
        AnsiColorStyler::NEWLINE@ == seq!['\n'],
        AnsiColorStyler::MARGIN_LINE@ == seq!['|'],
        AnsiColorStyler::ERROR_MARKER@ == seq!['^'],
        AnsiColorStyler::ERROR_MARKER_VERTICAL@ == seq!['|'],
        AnsiColorStyler::HINT_MARKER@ == seq!['-'],
{
    reveal_strlit("\n");
    reveal_strlit("|");
    reveal_strlit("^");
    reveal_strlit("-");
    assert(AnsiColorStyler::NEWLINE@ =~= seq!['\n']);
    assert(AnsiColorStyler::MARGIN_LINE@ =~= seq!['|']);
    assert(AnsiColorStyler::ERROR_MARKER@ =~= seq!['^']);
    assert(AnsiColorStyler::ERROR_MARKER_VERTICAL@ =~= seq!['|']);
    assert(AnsiColorStyler::HINT_MARKER@ =~= seq!['-']);
}

} // verus!
