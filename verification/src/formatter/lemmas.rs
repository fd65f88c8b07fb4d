//! What holds of every rendered diagnostic.

use vstd::prelude::*;

use crate::formatter::layout::{
    column_callout, context_row, dots_prefix, dots_suffix, largest_line_number,
    largest_line_number_up_to, line_rows, margin_width, marker_indent, marker_row, marker_run,
    rendered, rows_beneath, shown_line, suggestion_line_number,
};
use crate::formatter::styler::Styler;
use crate::model::error_code::ErrorCodeView;
use crate::model::highlight_level::HighlightLevel;
use crate::model::source_error::{SourceError, SourceErrorView};
use crate::model::source_highlighted::SourceHighlightedView;
use crate::model::suggestion::SuggestionView;
use crate::text::{
    digits, lemma_append_nothing, lemma_digits_bounds, lemma_digits_monotonic,
    lemma_repeated_len, pow10,
};

verus! {

/// Rendering is deterministic: two source errors with the same value, whose
/// error codes show the same, are rendered as the same text by the same
/// styler.
pub proof fn lemma_same_input_same_text<S: Styler, E>(
    first_shown: ErrorCodeView,
    first: &SourceError<E>,
    second_shown: ErrorCodeView,
    second: &SourceError<E>,
)
    requires
        first@ == second@,
        first_shown == second_shown,
    ensures
        rendered::<S>(first_shown, first@) == rendered::<S>(second_shown, second@),
{
}

/// There is one marker for each character of the marked value, however many
/// bytes the characters take: the markers are as long as the value, times
/// the length of one marker.
pub proof fn lemma_marker_per_character(marker: Seq<char>, value: Seq<char>)
    ensures
        marker_run(marker, value).len() == value.len() * marker.len(),
        marker.len() == 1 ==> marker_run(marker, value).len() == value.len(),
{
    lemma_repeated_len(marker, value.len());
    if marker.len() == 1 {
        assert(value.len() * 1 == value.len());
    }
}

/// Where the context starts in the middle of a line, its first line is shown
/// between dots, and the line that holds the marked value has the column
/// callout beneath its markers.
pub proof fn lemma_partial_line_rows<S: Styler>(
    source: SourceHighlightedView,
    level: HighlightLevel,
    width: nat,
    marker: Seq<char>,
    index: int,
)
    requires
        source.is_partial_line(),
        0 <= index < source.context_lines().len(),
    ensures
        index == 0 ==> line_rows::<S>(source, level, width, marker, index) == context_row::<S>(
            width,
            source.line_number_at(index),
            dots_prefix() + source.context_lines()[index] + dots_suffix(),
            false,
        ) + rows_beneath::<S>(source, level, width, marker, index),
        source.marks_line(index) ==> rows_beneath::<S>(source, level, width, marker, index)
            == marker_row::<S>(
            width,
            level,
            source.expr_context.inner.col_number,
            source.expr->0,
            marker,
        ) + column_callout::<S>(
            width,
            level,
            source.expr_context.inner.col_number,
            source.expr->0.inner.col_number,
        ),
{
}

/// Where the context starts at the beginning of a line, every line is shown
/// as it is, and nothing but the markers is printed beneath a line.
pub proof fn lemma_full_line_rows<S: Styler>(
    source: SourceHighlightedView,
    level: HighlightLevel,
    width: nat,
    marker: Seq<char>,
    index: int,
)
    requires
        !source.is_partial_line(),
        0 <= index < source.context_lines().len(),
    ensures
        line_rows::<S>(source, level, width, marker, index) == context_row::<S>(
            width,
            source.line_number_at(index),
            source.context_lines()[index],
            false,
        ) + rows_beneath::<S>(source, level, width, marker, index),
        shown_line(source.context_lines()[index], false) == source.context_lines()[index],
        source.marks_line(index) ==> rows_beneath::<S>(source, level, width, marker, index)
            == marker_row::<S>(
            width,
            level,
            source.expr_context.inner.col_number,
            source.expr->0,
            marker,
        ),
        !source.marks_line(index) ==> rows_beneath::<S>(source, level, width, marker, index)
            == Seq::<char>::empty(),
{
    if source.marks_line(index) {
        lemma_append_nothing(
            marker_row::<S>(
                width,
                level,
                source.expr_context.inner.col_number,
                source.expr->0,
                marker,
            ),
        );
    }
}

/// The largest line number of the first `count` suggestions is at least
/// `floor` and at least the line number of each of them, and it is one of
/// these numbers.
pub proof fn lemma_largest_line_number_up_to(
    floor: nat,
    suggestions: Seq<SuggestionView>,
    count: nat,
)
    requires
        count <= suggestions.len(),
    ensures
        floor <= largest_line_number_up_to(floor, suggestions, count),
        forall|i: int|
            0 <= i < count ==> suggestion_line_number(#[trigger] suggestions[i])
                <= largest_line_number_up_to(floor, suggestions, count),
        largest_line_number_up_to(floor, suggestions, count) == floor || exists|i: int|
            0 <= i < count && largest_line_number_up_to(floor, suggestions, count)
                == suggestion_line_number(#[trigger] suggestions[i]),
    decreases count,
{
    if count > 0 {
        lemma_largest_line_number_up_to(floor, suggestions, (count - 1) as nat);
        let before = largest_line_number_up_to(floor, suggestions, (count - 1) as nat);
        let here = suggestion_line_number(suggestions[count - 1]);
        if here > before {
            assert(largest_line_number_up_to(floor, suggestions, count)
                == suggestion_line_number(suggestions[count - 1]));
        } else if before != floor {
            let i = choose|i: int|
                0 <= i < count - 1 && before == suggestion_line_number(#[trigger] suggestions[i]);
            assert(largest_line_number_up_to(floor, suggestions, count)
                == suggestion_line_number(suggestions[i]));
        }
    }
}

/// The line-number column is as wide as the largest line number printed in
/// the diagnostic has digits: with `N` that number, the width is the floor of
/// the base-ten logarithm of `N`, plus one. No line number printed beside
/// source text, of the error or of a suggestion, has more digits.
pub proof fn lemma_margin_fits_largest_line_number(error: SourceErrorView)
    ensures
        margin_width(error) == digits(largest_line_number(error)),
        largest_line_number(error) >= 1 ==> pow10((margin_width(error) - 1) as nat)
            <= largest_line_number(error) < pow10(margin_width(error)),
        error.invalid_source.last_line_number() <= largest_line_number(error),
        digits(error.invalid_source.last_line_number()) <= margin_width(error),
        forall|i: int|
            0 <= i < error.suggestions.len() ==> suggestion_line_number(
                #[trigger] error.suggestions[i],
            ) <= largest_line_number(error),
        forall|i: int|
            0 <= i < error.suggestions.len() ==> digits(
                suggestion_line_number(#[trigger] error.suggestions[i]),
            ) <= margin_width(error),
        largest_line_number(error) == error.invalid_source.last_line_number() || exists|i: int|
            0 <= i < error.suggestions.len() && largest_line_number(error)
                == suggestion_line_number(#[trigger] error.suggestions[i]),
{
    let floor = error.invalid_source.last_line_number();
    let largest = largest_line_number(error);
    lemma_largest_line_number_up_to(floor, error.suggestions, error.suggestions.len());
    if largest >= 1 {
        lemma_digits_bounds(largest);
    }
    lemma_digits_monotonic(floor, largest);
    assert forall|i: int| 0 <= i < error.suggestions.len() implies digits(
        suggestion_line_number(#[trigger] error.suggestions[i]),
    ) <= margin_width(error) by {
        lemma_digits_monotonic(suggestion_line_number(error.suggestions[i]), largest);
    }
}

/// Every line number printed beside the context is at most the last one, so
/// it fits a column that is as wide as the last one has digits.
pub proof fn lemma_line_numbers_fit(source: SourceHighlightedView, index: int)
    requires
        0 <= index < source.context_lines().len(),
    ensures
        source.line_number_at(index) <= source.last_line_number(),
        digits(source.line_number_at(index)) <= digits(source.last_line_number()),
{
    lemma_digits_monotonic(source.line_number_at(index), source.last_line_number());
}

/// Where the marked value starts at or behind the start of the context, its
/// markers start as many cells behind the start of the shown line as the
/// value does: the distance between the two columns, and the cells of the
/// leading dots more where the context starts in the middle of a line.
pub proof fn lemma_marker_indent_within_context(context_col_number: nat, expr_col_number: nat)
    requires
        context_col_number <= expr_col_number,
    ensures
        context_col_number > 1 ==> marker_indent(context_col_number, expr_col_number)
            == dots_prefix().len() + (expr_col_number - context_col_number),
        context_col_number <= 1 ==> marker_indent(context_col_number, expr_col_number)
            == expr_col_number - context_col_number,
{
    reveal_strlit(".. ");
}

/// A well-formed source is marked on exactly one line: the line of the
/// context that carries the line number of the value.
pub proof fn lemma_marked_on_one_line(source: SourceHighlightedView)
    requires
        source.wf(),
        source.expr is Some,
    ensures
        source.marks_line(
            source.expr->0.inner.line_number - source.expr_context.inner.line_number,
        ),
        forall|index: int| #[trigger]
            source.marks_line(index) ==> index == source.expr->0.inner.line_number
                - source.expr_context.inner.line_number,
{
}

/// The markers stand beneath the value that they mark.
///
/// Take a shown line of the context, and a value that starts `offset`
/// characters into the line: `offset` is the distance from the column at
/// which the context starts to the column at which the value starts. Then
/// the cells of the shown line above the markers hold the value. This is so
/// whether or not the line is shown between dots, as long as the line is
/// shown between dots exactly where the context starts in the middle of a
/// line, which is the case for the first line of the context, and for every
/// line where the context starts at the beginning of a line.
pub proof fn lemma_markers_beneath_value(
    line: Seq<char>,
    context_col_number: nat,
    expr_col_number: nat,
    value: Seq<char>,
)
    requires
        context_col_number <= expr_col_number,
        expr_col_number - context_col_number + value.len() <= line.len(),
        line.subrange(
            expr_col_number - context_col_number,
            expr_col_number - context_col_number + value.len(),
        ) == value,
    ensures
        ({
            let shown = shown_line(line, context_col_number > 1);
            let indent = marker_indent(context_col_number, expr_col_number) as int;
            &&& indent + value.len() <= shown.len()
            &&& shown.subrange(indent, indent + value.len()) == value
        }),
{
    reveal_strlit(".. ");
    let shown = shown_line(line, context_col_number > 1);
    let indent = marker_indent(context_col_number, expr_col_number) as int;
    let offset = expr_col_number - context_col_number;
    assert(shown.subrange(indent, indent + value.len()) =~= line.subrange(
        offset,
        offset + value.len(),
    ));
}

} // verus!
