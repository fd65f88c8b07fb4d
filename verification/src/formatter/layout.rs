//! What a rendered diagnostic looks like, character for character.
//!
//! A diagnostic is a header, a location, a block of source text and the
//! suggestions, in this order:
//!
//! ```text
//! error[E1]: `-1` is out of the range: `1..3`.
//!   --> path/to/file.toml:2:13
//!    |
//!  2 | i32_value = -1
//!    |             ^^
//!    = note: expected one of: `1`, `2`, `3`
//! ```
//!
//! The functions here are specifications: each says which characters one
//! part of the diagnostic consists of. The formatter's functions are proved
//! to write exactly these.

use vstd::prelude::*;

use crate::fmt::code::code_text;
use crate::fmt::note::quoted_list;
use crate::formatter::styler::{StyledPart, Styler};
use crate::model::error_code::ErrorCodeView;
use crate::model::expr::ExprView;
use crate::model::expr_highlighted::ExprHighlightedView;
use crate::model::highlight_level::HighlightLevel;
use crate::model::severity::Severity;
use crate::model::source_error::SourceErrorView;
use crate::model::source_highlighted::SourceHighlightedView;
use crate::model::source_ref_hint::SourceRefHintView;
use crate::model::suggestion::SuggestionView;
use crate::text::{centered, decimal, digits, repeated, spaces};

verus! {

/// The width of the column that holds the line numbers: `width`, but never
/// less than one cell.
pub open spec fn number_column(width: nat) -> nat {
    if width == 0 {
        1
    } else {
        width
    }
}

/// The left margin of a row without a line number: a space, the empty
/// number column, and a space.
pub open spec fn gutter(width: nat) -> Seq<char> {
    spaces(1) + spaces(number_column(width)) + spaces(1)
}

/// `text` set off as `part`: between the tokens that the styler writes
/// before and after that part.
pub open spec fn styled<S: Styler>(part: StyledPart, text: Seq<char>) -> Seq<char> {
    S::begin_token(part) + text + S::end_token(part)
}

/// The margin line, in the margin's style.
pub open spec fn margin_line<S: Styler>() -> Seq<char> {
    styled::<S>(StyledPart::Margin, S::MARGIN_LINE@)
}

/// A row that holds nothing but the margin line.
pub open spec fn margin_row<S: Styler>(width: nat) -> Seq<char> {
    gutter(width) + margin_line::<S>() + S::NEWLINE@
}

/// The part that the tag of a diagnostic of the given severity is styled
/// as.
pub open spec fn tag_part(severity: Severity) -> StyledPart {
    match severity {
        Severity::Deny => StyledPart::ErrorTag,
        Severity::Warning => StyledPart::WarningTag,
    }
}

/// The word that a diagnostic of the given severity starts with.
pub open spec fn tag_name(severity: Severity) -> Seq<char> {
    match severity {
        Severity::Deny => "error"@,
        Severity::Warning => "warning"@,
    }
}

/// The first line of a diagnostic: `error[E01]: description`.
///
/// The tag and the brackets are styled as the tag of the severity, the code
/// as an error code, and the colon and the description as the description.
pub open spec fn header<S: Styler>(severity: Severity, error_code: ErrorCodeView) -> Seq<char> {
    styled::<S>(tag_part(severity), tag_name(severity) + "["@)
        + styled::<S>(
        StyledPart::ErrorCode,
        code_text(error_code.prefix, error_code.code, error_code.code_max),
    )
        + styled::<S>(tag_part(severity), "]"@)
        + styled::<S>(StyledPart::ErrorDescription, ": "@ + error_code.description)
        + S::NEWLINE@
}

/// A number, in the style for numbers.
pub open spec fn styled_number<S: Styler>(value: nat) -> Seq<char> {
    styled::<S>(StyledPart::Number, decimal(value))
}

/// The line and column that the location line names: those of the marked
/// value, or those of the context where no value is marked.
pub open spec fn place(source: SourceHighlightedView) -> ExprView {
    match source.expr {
        Some(expr) => expr.inner,
        None => source.expr_context.inner,
    }
}

/// The line that says where the source text comes from:
/// `  --> path:line:column`. The arrow is indented with the line-number
/// column, so that it stays above the margin line of the rows that follow.
/// Without a path there is no such line.
pub open spec fn location<S: Styler>(source: SourceHighlightedView, width: nat) -> Seq<char> {
    match source.path {
        Some(path) => {
            spaces(1) + spaces(number_column(width))
                + styled::<S>(StyledPart::Margin, "-->"@)
                + " "@
                + styled::<S>(StyledPart::Path, path)
                + ":"@ + styled_number::<S>(place(source).line_number)
                + ":"@ + styled_number::<S>(place(source).col_number)
                + S::NEWLINE@
        },
        None => Seq::empty(),
    }
}

/// What is printed in front of a line of which only a part is shown.
pub open spec fn dots_prefix() -> Seq<char> {
    ".. "@
}

/// What is printed behind a line of which only a part is shown.
pub open spec fn dots_suffix() -> Seq<char> {
    " .."@
}

/// The number of cells that [`dots_prefix`] takes.
pub open spec fn dots_prefix_len() -> nat {
    3
}

/// The text of a context line as it is shown: between dots where only a
/// part of the line is shown, else as it is.
pub open spec fn shown_line(line: Seq<char>, surround_with_dots: bool) -> Seq<char> {
    if surround_with_dots {
        dots_prefix() + line + dots_suffix()
    } else {
        line
    }
}

/// A row of source text: the line number, centred in its column between two
/// spaces, and the margin line, both in the margin's style; then the text.
pub open spec fn context_row<S: Styler>(
    width: nat,
    line_number: nat,
    line: Seq<char>,
    surround_with_dots: bool,
) -> Seq<char> {
    styled::<S>(
        StyledPart::Margin,
        spaces(1) + centered(decimal(line_number), width) + spaces(1) + S::MARGIN_LINE@,
    )
        + " "@ + shown_line(line, surround_with_dots)
        + S::NEWLINE@
}

/// The part that markers of the given level are styled as.
pub open spec fn marker_part(level: HighlightLevel) -> StyledPart {
    match level {
        HighlightLevel::Error => StyledPart::ErrorMarker,
        HighlightLevel::Warning => StyledPart::WarningMarker,
        HighlightLevel::Info => StyledPart::HintMarker,
    }
}

/// The number of cells between the start of a shown context line and a
/// value on it.
///
/// This is the distance from the column the context starts at to the column
/// the value starts at, plus the cells of the leading dots where the context
/// starts in the middle of a line. A value that starts before the context is
/// treated as if it started with it.
pub open spec fn marker_indent(context_col_number: nat, expr_col_number: nat) -> nat {
    let distance: nat = if expr_col_number >= context_col_number {
        (expr_col_number - context_col_number) as nat
    } else {
        0
    };
    if context_col_number > 1 {
        dots_prefix_len() + distance
    } else {
        distance
    }
}

/// The markers beneath a value: the marker once for each character of the
/// value.
pub open spec fn marker_run(marker: Seq<char>, value: Seq<char>) -> Seq<char> {
    repeated(marker, value.len())
}

/// What is printed behind the markers: the hint of the value, if it has one.
pub open spec fn hint_text(hint: Option<Seq<char>>) -> Seq<char> {
    match hint {
        Some(hint) => " hint: "@ + hint,
        None => Seq::empty(),
    }
}

/// The row beneath a context line that underlines `expr`: the margin, then
/// one marker for each character of the value, starting in the cell beneath
/// the first character of the value, then the hint.
///
/// The spaces in front of the markers are styled with them.
pub open spec fn marker_row<S: Styler>(
    width: nat,
    level: HighlightLevel,
    context_col_number: nat,
    expr: ExprHighlightedView,
    marker: Seq<char>,
) -> Seq<char> {
    gutter(width) + margin_line::<S>() + " "@
        + styled::<S>(
        marker_part(level),
        spaces(marker_indent(context_col_number, expr.inner.col_number)) + marker_run(
            marker,
            expr.inner.value,
        ),
    )
        + styled::<S>(StyledPart::HintError, hint_text(expr.hint))
        + S::NEWLINE@
}

/// The two rows that name the column of a value on a line of which only a
/// part is shown: a vertical bar beneath the first marker, and the column
/// number beneath the bar. The second row is not styled, and its margin line
/// is a plain `|`.
pub open spec fn column_callout<S: Styler>(
    width: nat,
    level: HighlightLevel,
    context_col_number: nat,
    expr_col_number: nat,
) -> Seq<char> {
    gutter(width) + margin_line::<S>() + " "@
        + spaces(marker_indent(context_col_number, expr_col_number))
        + styled::<S>(marker_part(level), S::ERROR_MARKER_VERTICAL@)
        + S::NEWLINE@
        + gutter(width) + "|"@ + " "@
        + spaces(marker_indent(context_col_number, expr_col_number))
        + decimal(expr_col_number)
        + S::NEWLINE@
}

/// Whether the first line of the context is shown between dots.
///
/// Only the first line of a context can be shown in part: the lines after
/// it are printed whole.
pub open spec fn surrounds_with_dots(source: SourceHighlightedView, index: int) -> bool {
    source.is_partial_line() && index == 0
}

/// What is printed beneath the context line at `index`: the markers where
/// the line is the one that the value is on, followed by the column callout
/// where only a part of the context's first line is shown; else nothing.
pub open spec fn rows_beneath<S: Styler>(
    source: SourceHighlightedView,
    level: HighlightLevel,
    width: nat,
    marker: Seq<char>,
    index: int,
) -> Seq<char> {
    match source.expr {
        Some(expr) => if source.marks_line(index) {
            marker_row::<S>(width, level, source.expr_context.inner.col_number, expr, marker) + (
            if source.is_partial_line() {
                column_callout::<S>(
                    width,
                    level,
                    source.expr_context.inner.col_number,
                    expr.inner.col_number,
                )
            } else {
                Seq::empty()
            })
        } else {
            Seq::empty()
        },
        None => Seq::empty(),
    }
}

/// The rows for the context line at `index`: the line itself and what is
/// printed beneath it.
pub open spec fn line_rows<S: Styler>(
    source: SourceHighlightedView,
    level: HighlightLevel,
    width: nat,
    marker: Seq<char>,
    index: int,
) -> Seq<char> {
    context_row::<S>(
        width,
        source.line_number_at(index),
        source.context_lines()[index],
        surrounds_with_dots(source, index),
    ) + rows_beneath::<S>(source, level, width, marker, index)
}

/// The rows for the first `count` lines of the context.
pub open spec fn rows_up_to<S: Styler>(
    source: SourceHighlightedView,
    level: HighlightLevel,
    width: nat,
    marker: Seq<char>,
    count: nat,
) -> Seq<char>
    decreases count,
{
    if count == 0 {
        Seq::empty()
    } else {
        rows_up_to::<S>(source, level, width, marker, (count - 1) as nat) + line_rows::<S>(
            source,
            level,
            width,
            marker,
            count - 1,
        )
    }
}

/// Whether the block of source text ends with a row that holds only the
/// margin line. It does, unless its last row is a row of markers: that is,
/// unless the value is on the last line of the context and no column callout
/// follows its markers.
pub open spec fn closes_with_margin_row(source: SourceHighlightedView) -> bool {
    !source.marks_line(source.context_lines().len() - 1) || source.is_partial_line()
}

/// The block of source text: a row with only the margin line, the lines of
/// the context with the markers beneath the value, and a closing row with
/// only the margin line where [`closes_with_margin_row`] says so.
pub open spec fn source_block<S: Styler>(
    source: SourceHighlightedView,
    level: HighlightLevel,
    width: nat,
    marker: Seq<char>,
) -> Seq<char> {
    margin_row::<S>(width) + rows_up_to::<S>(
        source,
        level,
        width,
        marker,
        source.context_lines().len(),
    ) + (if closes_with_margin_row(source) {
        margin_row::<S>(width)
    } else {
        Seq::empty()
    })
}

/// The line that lists the values that would have been accepted:
/// `= note: expected one of: `a`, `b``.
pub open spec fn valid_exprs_note<S: Styler>(valid_exprs: Seq<Seq<char>>, width: nat) -> Seq<
    char,
> {
    styled::<S>(
        StyledPart::HintInfo,
        gutter(width) + "= note: expected one of: "@ + quoted_list(valid_exprs),
    ) + S::NEWLINE@
}

/// The line that gives a piece of advice: `= hint: first defined here`.
pub open spec fn hint_note<S: Styler>(hint: Seq<char>, width: nat) -> Seq<char> {
    gutter(width) + styled::<S>(StyledPart::HintInfo, "= hint: "@ + hint) + S::NEWLINE@
}

/// An empty line, and the line that introduces a reference to another part
/// of the source text: `help: description:`.
pub open spec fn help_line<S: Styler>(description: Seq<char>) -> Seq<char> {
    S::NEWLINE@ + styled::<S>(StyledPart::HintInfo, "help: "@ + description + ":"@) + S::NEWLINE@
}

/// A reference to another part of the source text: an empty line, a line
/// `help: description:`, and then the location and the block of the source
/// text referred to, laid out as those of the error itself.
pub open spec fn source_ref_help<S: Styler>(
    source_ref_hint: SourceRefHintView,
    level: HighlightLevel,
    width: nat,
) -> Seq<char> {
    help_line::<S>(source_ref_hint.description)
        + location::<S>(source_ref_hint.source_ref, width)
        + source_block::<S>(source_ref_hint.source_ref, level, width, S::HINT_MARKER@)
}

/// What one suggestion renders as.
pub open spec fn suggestion<S: Styler>(suggestion: SuggestionView, width: nat) -> Seq<char> {
    match suggestion {
        SuggestionView::ValidExprs(valid_exprs) => valid_exprs_note::<S>(valid_exprs, width),
        SuggestionView::SourceRefHint(source_ref_hint) => source_ref_help::<S>(
            source_ref_hint,
            HighlightLevel::Info,
            width,
        ),
        SuggestionView::Hint(hint) => hint_note::<S>(hint, width),
    }
}

/// What the first `count` of `suggestions` render as, one after the other.
pub open spec fn suggestions_up_to<S: Styler>(
    suggestions: Seq<SuggestionView>,
    width: nat,
    count: nat,
) -> Seq<char>
    decreases count,
{
    if count == 0 {
        Seq::empty()
    } else {
        suggestions_up_to::<S>(suggestions, width, (count - 1) as nat) + suggestion::<S>(
            suggestions[count - 1],
            width,
        )
    }
}

/// The largest line number printed beside the source text that `suggestion`
/// refers to; zero for a suggestion that shows no source text.
pub open spec fn suggestion_line_number(suggestion: SuggestionView) -> nat {
    match suggestion {
        SuggestionView::SourceRefHint(source_ref_hint) => {
            source_ref_hint.source_ref.last_line_number()
        },
        _ => 0,
    }
}

/// The largest of `floor` and the line numbers printed for the first `count`
/// of `suggestions`.
pub open spec fn largest_line_number_up_to(
    floor: nat,
    suggestions: Seq<SuggestionView>,
    count: nat,
) -> nat
    decreases count,
{
    if count == 0 {
        floor
    } else {
        let before = largest_line_number_up_to(floor, suggestions, (count - 1) as nat);
        let here = suggestion_line_number(suggestions[count - 1]);
        if here > before {
            here
        } else {
            before
        }
    }
}

/// The largest line number printed anywhere in the diagnostic: beside the
/// source text of the error, or beside source text that a suggestion refers
/// to.
pub open spec fn largest_line_number(error: SourceErrorView) -> nat {
    largest_line_number_up_to(
        error.invalid_source.last_line_number(),
        error.suggestions,
        error.suggestions.len(),
    )
}

/// The width of the line-number column of a diagnostic: the number of digits
/// of the largest line number printed in it.
pub open spec fn margin_width(error: SourceErrorView) -> nat {
    digits(largest_line_number(error))
}

/// The whole diagnostic: header, location, source text and suggestions.
pub open spec fn rendered<S: Styler>(error_code: ErrorCodeView, error: SourceErrorView) -> Seq<
    char,
> {
    let width = margin_width(error);
    header::<S>(error.severity, error_code)
        + location::<S>(error.invalid_source, width)
        + source_block::<S>(
            error.invalid_source,
            HighlightLevel::of_severity(error.severity),
            width,
            S::ERROR_MARKER@,
        )
        + suggestions_up_to::<S>(error.suggestions, width, error.suggestions.len())
}

} // verus!
