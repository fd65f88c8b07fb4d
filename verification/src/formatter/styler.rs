use vstd::prelude::*;

verus! {

/// The parts of a diagnostic that a styler may set off from the rest.
#[derive(Clone, Copy, Debug, PartialEq, Eq, Structural)]
pub enum StyledPart {
    /// The margin: line numbers, the margin line, and the arrow in front of
    /// a path.
    Margin,
    /// The error code -- `E001`.
    ErrorCode,
    /// The error tag -- `error[` and `]`.
    ErrorTag,
    /// The error description.
    ErrorDescription,
    /// The markers beneath an error.
    ErrorMarker,
    /// The markers beneath a hint.
    HintMarker,
    /// The hint beside the markers.
    HintError,
    /// A note, a hint or a help line.
    HintInfo,
    /// A line or column number.
    Number,
    /// The path of the source.
    Path,
    /// The markers beneath a warning.
    WarningMarker,
    /// The warning tag -- `warning[` and `]`.
    WarningTag,
}

/// Supplies the tokens and glyphs that give a diagnostic its looks.
///
/// The formatter decides what text goes where. A styler only says what to
/// write before and after each part: nothing for plain text, escape codes
/// for a terminal, tags for markup. [`Styler::begin_token`] and
/// [`Styler::end_token`] name these tokens, and each method appends exactly
/// the token of its place.
///
/// The glyphs are constants with defaults. A styler whose output is to be
/// reasoned about gives each of them a value of its own and proves what
/// that value is, as the plain text styler does.
pub trait Styler {
    /// Ends a line. Defaults to `"\n"`.
    const NEWLINE: &'static str = "\n";

    /// Separates the line numbers from the source text.
    const MARGIN_LINE: &'static str = "|";

    /// Underlines an erroneous value, once per character.
    ///
    /// This is taken to be one cell wide on screen, though it may be written
    /// with more than one character.
    const ERROR_MARKER: &'static str = "^";

    /// Connects the markers to the column number printed beneath them.
    ///
    /// This is taken to be one cell wide on screen, though it may be written
    /// with more than one character.
    const ERROR_MARKER_VERTICAL: &'static str = "|";

    /// Underlines a value that a hint points at, once per character.
    ///
    /// This is taken to be one cell wide on screen, though it may be written
    /// with more than one character.
    const HINT_MARKER: &'static str = "-";

    /// The token this styler writes before `part`.
    spec fn begin_token(part: StyledPart) -> Seq<char>;

    /// The token this styler writes after `part`.
    spec fn end_token(part: StyledPart) -> Seq<char>;

    /// Writes the token that goes before the margin: line numbers, the
    /// margin line, and the arrow in front of a path.
    fn margin_begin(buffer: &mut String)
        ensures
            final(buffer)@ == old(buffer)@ + Self::begin_token(StyledPart::Margin),
    ;

    /// Writes the token that goes after the margin: line numbers, the
    /// margin line, and the arrow in front of a path.
    fn margin_end(buffer: &mut String)
        ensures
            final(buffer)@ == old(buffer)@ + Self::end_token(StyledPart::Margin),
    ;

    /// Writes the token that goes before the error code -- `E001`.
    fn error_code_begin(buffer: &mut String)
        ensures
            final(buffer)@ == old(buffer)@ + Self::begin_token(StyledPart::ErrorCode),
    ;

    /// Writes the token that goes after the error code -- `E001`.
    fn error_code_end(buffer: &mut String)
        ensures
            final(buffer)@ == old(buffer)@ + Self::end_token(StyledPart::ErrorCode),
    ;

    /// Writes the token that goes before the error tag -- `error[` and `]`.
    fn error_tag_begin(buffer: &mut String)
        ensures
            final(buffer)@ == old(buffer)@ + Self::begin_token(StyledPart::ErrorTag),
    ;

    /// Writes the token that goes after the error tag -- `error[` and `]`.
    fn error_tag_end(buffer: &mut String)
        ensures
            final(buffer)@ == old(buffer)@ + Self::end_token(StyledPart::ErrorTag),
    ;

    /// Writes the token that goes before the error description.
    fn error_description_begin(buffer: &mut String)
        ensures
            final(buffer)@ == old(buffer)@ + Self::begin_token(StyledPart::ErrorDescription),
    ;

    /// Writes the token that goes after the error description.
    fn error_description_end(buffer: &mut String)
        ensures
            final(buffer)@ == old(buffer)@ + Self::end_token(StyledPart::ErrorDescription),
    ;

    /// Writes the token that goes before the markers beneath an error.
    fn error_marker_begin(buffer: &mut String)
        ensures
            final(buffer)@ == old(buffer)@ + Self::begin_token(StyledPart::ErrorMarker),
    ;

    /// Writes the token that goes after the markers beneath an error.
    fn error_marker_end(buffer: &mut String)
        ensures
            final(buffer)@ == old(buffer)@ + Self::end_token(StyledPart::ErrorMarker),
    ;

    /// Writes the token that goes before the markers beneath a hint.
    fn hint_marker_begin(buffer: &mut String)
        ensures
            final(buffer)@ == old(buffer)@ + Self::begin_token(StyledPart::HintMarker),
    ;

    /// Writes the token that goes after the markers beneath a hint.
    fn hint_marker_end(buffer: &mut String)
        ensures
            final(buffer)@ == old(buffer)@ + Self::end_token(StyledPart::HintMarker),
    ;

    /// Writes the token that goes before the hint beside the markers.
    fn hint_error_begin(buffer: &mut String)
        ensures
            final(buffer)@ == old(buffer)@ + Self::begin_token(StyledPart::HintError),
    ;

    /// Writes the token that goes after the hint beside the markers.
    fn hint_error_end(buffer: &mut String)
        ensures
            final(buffer)@ == old(buffer)@ + Self::end_token(StyledPart::HintError),
    ;

    /// Writes the token that goes before a note, a hint or a help line.
    fn hint_info_begin(buffer: &mut String)
        ensures
            final(buffer)@ == old(buffer)@ + Self::begin_token(StyledPart::HintInfo),
    ;

    /// Writes the token that goes after a note, a hint or a help line.
    fn hint_info_end(buffer: &mut String)
        ensures
            final(buffer)@ == old(buffer)@ + Self::end_token(StyledPart::HintInfo),
    ;

    /// Writes the token that goes before a line or column number.
    fn number_begin(buffer: &mut String)
        ensures
            final(buffer)@ == old(buffer)@ + Self::begin_token(StyledPart::Number),
    ;

    /// Writes the token that goes after a line or column number.
    fn number_end(buffer: &mut String)
        ensures
            final(buffer)@ == old(buffer)@ + Self::end_token(StyledPart::Number),
    ;

    /// Writes the token that goes before the path of the source.
    fn path_begin(buffer: &mut String)
        ensures
            final(buffer)@ == old(buffer)@ + Self::begin_token(StyledPart::Path),
    ;

    /// Writes the token that goes after the path of the source.
    fn path_end(buffer: &mut String)
        ensures
            final(buffer)@ == old(buffer)@ + Self::end_token(StyledPart::Path),
    ;

    /// Writes the token that goes before the markers beneath a warning.
    fn warning_marker_begin(buffer: &mut String)
        ensures
            final(buffer)@ == old(buffer)@ + Self::begin_token(StyledPart::WarningMarker),
    ;

    /// Writes the token that goes after the markers beneath a warning.
    fn warning_marker_end(buffer: &mut String)
        ensures
            final(buffer)@ == old(buffer)@ + Self::end_token(StyledPart::WarningMarker),
    ;

    /// Writes the token that goes before the warning tag -- `warning[` and `]`.
    fn warning_tag_begin(buffer: &mut String)
        ensures
            final(buffer)@ == old(buffer)@ + Self::begin_token(StyledPart::WarningTag),
    ;

    /// Writes the token that goes after the warning tag -- `warning[` and `]`.
    fn warning_tag_end(buffer: &mut String)
        ensures
            final(buffer)@ == old(buffer)@ + Self::end_token(StyledPart::WarningTag),
    ;
}

} // verus!
