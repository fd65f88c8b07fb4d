use std::marker::PhantomData;

use vstd::prelude::*;
use vstd::string::*;

use crate::fmt::code::push_code;
use crate::fmt::note::push_quoted_list;
use crate::formatter::layout::{
    closes_with_margin_row, column_callout, context_row, gutter, header, help_line, hint_note,
    largest_line_number_up_to, line_rows, location, margin_line, margin_row, margin_width,
    marker_indent, marker_part, marker_row, number_column, rendered, rows_beneath,
    rows_up_to, source_block, source_ref_help, suggestion, suggestions_up_to,
    surrounds_with_dots, valid_exprs_note,
};
use crate::formatter::styler::Styler;
use crate::model::error_code::{
    answers_code, answers_description, shows, ErrorCode, ErrorCodeView,
};
use crate::model::expr_highlighted::ExprHighlighted;
use crate::model::highlight_level::HighlightLevel;
use crate::model::severity::Severity;
use crate::model::source_error::SourceError;
use crate::model::source_highlighted::SourceHighlighted;
use crate::model::source_ref_hint::SourceRefHint;
use crate::model::suggestion::{string_views, Suggestion};
use crate::text::{
    count_digits, digits, lemma_append_nothing, lemma_append_twice, push_centered_decimal,
    push_decimal, push_repeated, push_spaces, spaces, split_lines, views_of,
};

verus! {

/// Formats a [`SourceError`], with the styling of `S`.
#[derive(Debug)]
pub struct SourceErrorFormatter<S>(pub PhantomData<S>);

impl<S: Styler> SourceErrorFormatter<S> {
    /// Returns the source error as text: the diagnostic laid out with what
    /// the error code shows of itself.
    pub fn fmt<E: ErrorCode>(source_error: &SourceError<E>) -> (text: String)
        ensures
            exists|shown: ErrorCodeView| #[trigger]
                shows(&source_error.error_code, shown) && text@ == rendered::<S>(
                    shown,
                    source_error@,
                ),
    {
        let mut buffer = String::new();
        Self::fmt_buffer(&mut buffer, source_error);
        proof {
            let shown = choose|shown: ErrorCodeView| #[trigger]
                shows(&source_error.error_code, shown) && buffer@ == Seq::<char>::empty()
                    + rendered::<S>(shown, source_error@);
            lemma_append_nothing(rendered::<S>(shown, source_error@));
        }
        buffer
    }

    /// Appends the source error to `buffer`: the header, the location, the
    /// source text and the suggestions.
    pub fn fmt_buffer<E: ErrorCode>(buffer: &mut String, source_error: &SourceError<E>)
        ensures
            exists|shown: ErrorCodeView| #[trigger]
                shows(&source_error.error_code, shown) && final(buffer)@ == old(buffer)@
                    + rendered::<S>(shown, source_error@),
    {
        let line_number_digits = Self::line_number_digits(source_error);

        Self::fmt_error_code(buffer, source_error);
        let ghost shown = choose|shown: ErrorCodeView| #[trigger]
            shows(&source_error.error_code, shown) && buffer@ == old(buffer)@ + header::<S>(
                source_error.severity,
                shown,
            );
        Self::fmt_path(buffer, &source_error.invalid_source, line_number_digits);
        Self::fmt_error_expr(buffer, source_error, line_number_digits);
        Self::fmt_suggestions(buffer, source_error, line_number_digits);
        proof {
            let width = margin_width(source_error@);
            let head = header::<S>(source_error.severity, shown);
            let place = location::<S>(source_error@.invalid_source, width);
            let block = source_block::<S>(
                source_error@.invalid_source,
                HighlightLevel::of_severity(source_error.severity),
                width,
                S::ERROR_MARKER@,
            );
            let advice = suggestions_up_to::<S>(
                source_error@.suggestions,
                width,
                source_error@.suggestions.len(),
            );
            assert(buffer@ == (((old(buffer)@ + head) + place) + block) + advice);
            lemma_append_twice(old(buffer)@, head, place);
            lemma_append_twice(old(buffer)@, head + place, block);
            lemma_append_twice(old(buffer)@, head + place + block, advice);
            assert(rendered::<S>(shown, source_error@) == head + place + block + advice);
        }
    }

    /// Returns the largest line number printed beside the source text.
    fn last_line_number(source_highlighted: &SourceHighlighted) -> (line_number: u128)
        ensures
            line_number == source_highlighted@.last_line_number(),
    {
        let context = &source_highlighted.expr_context.inner;
        let lines = split_lines(context.value.as_str());
        assert(views_of(lines@).len() == lines@.len());
        if lines.len() == 0 {
            context.line_number as u128
        } else {
            context.line_number as u128 + (lines.len() - 1) as u128
        }
    }

    /// Returns the width of the line-number column: the number of digits of
    /// the largest line number that the diagnostic prints.
    pub fn line_number_digits<E: ErrorCode>(source_error: &SourceError<E>) -> (width: usize)
        ensures
            width == margin_width(source_error@),
            width >= 1,
    {
        let mut largest: u128 = Self::last_line_number(&source_error.invalid_source);
        let mut index: usize = 0;
        while index < source_error.suggestions.len()
            invariant
                index <= source_error.suggestions.len(),
                largest == largest_line_number_up_to(
                    source_error@.invalid_source.last_line_number(),
                    source_error@.suggestions,
                    index as nat,
                ),
            decreases source_error.suggestions.len() - index,
        {
            match &source_error.suggestions[index] {
                Suggestion::SourceRefHint(source_ref_hint) => {
                    let here = Self::last_line_number(&source_ref_hint.source_ref);
                    if here > largest {
                        largest = here;
                    }
                },
                _ => {},
            }
            index = index + 1;
        }
        count_digits(largest)
    }

    /// Appends the first line of the diagnostic, with what the error code
    /// shows of itself.
    pub fn fmt_error_code<E: ErrorCode>(buffer: &mut String, source_error: &SourceError<E>)
        ensures
            exists|shown: ErrorCodeView| #[trigger]
                shows(&source_error.error_code, shown) && final(buffer)@ == old(buffer)@
                    + header::<S>(source_error.severity, shown),
    {
        let error_code = &source_error.error_code;
        let code = error_code.code();
        let description = error_code.description();
        Self::fmt_header(
            buffer,
            source_error.severity,
            E::PREFIX,
            code,
            E::ERROR_CODE_MAX,
            description.as_str(),
        );
        proof {
            let shown = ErrorCodeView {
                prefix: E::PREFIX@,
                code: code as nat,
                code_max: E::ERROR_CODE_MAX as nat,
                description: description@,
            };
            assert(answers_code(error_code, shown.code));
            assert(answers_description(error_code, shown.description));
            assert(shows(error_code, shown));
        }
    }

    /// Appends the first line of a diagnostic: the tag of the severity, the
    /// error code between square brackets, and the description.
    ///
    /// The code is `prefix` and `code`, with zeros in front where `code` has
    /// fewer digits than `code_max`.
    pub fn fmt_header(
        buffer: &mut String,
        severity: Severity,
        prefix: &str,
        code: usize,
        code_max: usize,
        description: &str,
    )
        ensures
            final(buffer)@ == old(buffer)@ + header::<S>(
                severity,
                ErrorCodeView {
                    prefix: prefix@,
                    code: code as nat,
                    code_max: code_max as nat,
                    description: description@,
                },
            ),
    {
        match severity {
            Severity::Deny => {
                S::error_tag_begin(buffer);
                buffer.append("error");
                buffer.append("[");
                S::error_tag_end(buffer);

                S::error_code_begin(buffer);
                push_code(buffer, prefix, code, code_max);
                S::error_code_end(buffer);

                S::error_tag_begin(buffer);
                buffer.append("]");
                S::error_tag_end(buffer);
            },
            Severity::Warning => {
                S::warning_tag_begin(buffer);
                buffer.append("warning");
                buffer.append("[");
                S::warning_tag_end(buffer);

                S::error_code_begin(buffer);
                push_code(buffer, prefix, code, code_max);
                S::error_code_end(buffer);

                S::warning_tag_begin(buffer);
                buffer.append("]");
                S::warning_tag_end(buffer);
            },
        }

        S::error_description_begin(buffer);
        buffer.append(": ");
        buffer.append(description);
        S::error_description_end(buffer);

        buffer.append(S::NEWLINE);
        proof {
            assert(buffer@ =~= old(buffer)@ + header::<S>(
                severity,
                ErrorCodeView {
                    prefix: prefix@,
                    code: code as nat,
                    code_max: code_max as nat,
                    description: description@,
                },
            ));
        }
    }

    /// Appends the line that says where the source text comes from, if its
    /// path is known: `  --> path:line:column`.
    pub fn fmt_path(
        buffer: &mut String,
        source_highlighted: &SourceHighlighted,
        line_number_digits: usize,
    )
        ensures
            final(buffer)@ == old(buffer)@ + location::<S>(
                source_highlighted@,
                line_number_digits as nat,
            ),
    {
        match &source_highlighted.path {
            Some(path) => {
                let place = match &source_highlighted.expr {
                    Some(expr) => &expr.inner,
                    None => &source_highlighted.expr_context.inner,
                };

                push_spaces(buffer, 1);
                Self::fmt_number_column(buffer, line_number_digits);
                S::margin_begin(buffer);
                buffer.append("-->");
                S::margin_end(buffer);
                buffer.append(" ");

                S::path_begin(buffer);
                buffer.append(path.as_str());
                S::path_end(buffer);

                buffer.append(":");

                S::number_begin(buffer);
                push_decimal(buffer, place.line_number as u128);
                S::number_end(buffer);

                buffer.append(":");

                S::number_begin(buffer);
                push_decimal(buffer, place.col_number as u128);
                S::number_end(buffer);

                buffer.append(S::NEWLINE);
                proof {
                    assert(buffer@ =~= old(buffer)@ + location::<S>(
                        source_highlighted@,
                        line_number_digits as nat,
                    ));
                }
            },
            None => {
                assert(buffer@ =~= old(buffer)@ + location::<S>(
                    source_highlighted@,
                    line_number_digits as nat,
                ));
            },
        }
    }

    /// Appends the source text of the error, with the markers of an error
    /// beneath the offending value.
    pub fn fmt_error_expr<E: ErrorCode>(
        buffer: &mut String,
        source_error: &SourceError<E>,
        line_number_digits: usize,
    )
        ensures
            final(buffer)@ == old(buffer)@ + source_block::<S>(
                source_error.invalid_source@,
                HighlightLevel::of_severity(source_error.severity),
                line_number_digits as nat,
                S::ERROR_MARKER@,
            ),
    {
        Self::fmt_source_highlighted(
            buffer,
            &source_error.invalid_source,
            HighlightLevel::from(source_error.severity),
            line_number_digits,
            S::ERROR_MARKER,
        )
    }

    /// Appends the suggestions, in their order.
    pub fn fmt_suggestions<E: ErrorCode>(
        buffer: &mut String,
        source_error: &SourceError<E>,
        line_number_digits: usize,
    )
        ensures
            final(buffer)@ == old(buffer)@ + suggestions_up_to::<S>(
                source_error@.suggestions,
                line_number_digits as nat,
                source_error@.suggestions.len(),
            ),
    {
        let ghost all = source_error@.suggestions;
        let ghost width = line_number_digits as nat;
        let mut index: usize = 0;
        assert(buffer@ =~= old(buffer)@ + suggestions_up_to::<S>(all, width, 0));
        while index < source_error.suggestions.len()
            invariant
                index <= source_error.suggestions.len(),
                all == source_error@.suggestions,
                width == line_number_digits as nat,
                buffer@ == old(buffer)@ + suggestions_up_to::<S>(all, width, index as nat),
            decreases source_error.suggestions.len() - index,
        {
            let ghost before = buffer@;
            match &source_error.suggestions[index] {
                Suggestion::ValidExprs(valid_exprs) => {
                    Self::fmt_suggestion_valid_expr(
                        buffer,
                        valid_exprs.as_slice(),
                        line_number_digits,
                    );
                },
                Suggestion::SourceRefHint(source_ref_hint) => {
                    Self::fmt_suggestion_source_ref_hint(
                        buffer,
                        HighlightLevel::Info,
                        source_ref_hint,
                        line_number_digits,
                    );
                },
                Suggestion::Hint(hint) => {
                    Self::fmt_suggestion_hint(buffer, hint.as_str(), line_number_digits);
                },
            }
            proof {
                assert(buffer@ == before + suggestion::<S>(all[index as int], width));
                assert(buffer@ =~= old(buffer)@ + suggestions_up_to::<S>(
                    all,
                    width,
                    (index + 1) as nat,
                ));
            }
            index = index + 1;
        }
    }

    /// Appends the line that lists the values that would have been accepted:
    /// `= note: expected one of: `a`, `b``.
    pub fn fmt_suggestion_valid_expr(
        buffer: &mut String,
        valid_exprs: &[String],
        line_number_digits: usize,
    )
        ensures
            final(buffer)@ == old(buffer)@ + valid_exprs_note::<S>(
                string_views(valid_exprs@),
                line_number_digits as nat,
            ),
    {
        S::hint_info_begin(buffer);

        Self::fmt_gutter(buffer, line_number_digits);
        buffer.append("= note: expected one of: ");
        push_quoted_list(buffer, valid_exprs);

        S::hint_info_end(buffer);

        buffer.append(S::NEWLINE);
        proof {
            assert(buffer@ =~= old(buffer)@ + valid_exprs_note::<S>(
                string_views(valid_exprs@),
                line_number_digits as nat,
            ));
        }
    }

    /// Appends a reference to another part of the source text: an empty
    /// line, `help: description:`, and the location and text of the source
    /// referred to, with the markers of a hint.
    ///
    /// ```text
    ///
    /// help: `chosen` value must come from one of `available` values:
    ///   --> src/dynamic_value.yaml:1:1
    ///    |
    ///  1 | available:
    ///  2 |  - abc
    ///  3 |  - def
    ///    |
    /// ```
    pub fn fmt_suggestion_source_ref_hint(
        buffer: &mut String,
        highlight_level: HighlightLevel,
        source_ref_hint: &SourceRefHint,
        line_number_digits: usize,
    )
        ensures
            final(buffer)@ == old(buffer)@ + source_ref_help::<S>(
                source_ref_hint@,
                highlight_level,
                line_number_digits as nat,
            ),
    {
        Self::fmt_help_line(buffer, source_ref_hint.description.as_str());
        Self::fmt_path(buffer, &source_ref_hint.source_ref, line_number_digits);
        Self::fmt_source_highlighted(
            buffer,
            &source_ref_hint.source_ref,
            highlight_level,
            line_number_digits,
            S::HINT_MARKER,
        );
        proof {
            let width = line_number_digits as nat;
            let place = location::<S>(source_ref_hint@.source_ref, width);
            let block = source_block::<S>(
                source_ref_hint@.source_ref,
                highlight_level,
                width,
                S::HINT_MARKER@,
            );
            let help = help_line::<S>(source_ref_hint@.description);
            assert(buffer@ == ((old(buffer)@ + help) + place) + block);
            lemma_append_twice(old(buffer)@, help, place);
            lemma_append_twice(old(buffer)@, help + place, block);
        }
    }

    /// Appends an empty line and the line that introduces a reference to
    /// another part of the source text: `help: description:`.
    fn fmt_help_line(buffer: &mut String, description: &str)
        ensures
            final(buffer)@ == old(buffer)@ + help_line::<S>(description@),
    {
        buffer.append(S::NEWLINE);

        S::hint_info_begin(buffer);
        buffer.append("help: ");
        buffer.append(description);
        buffer.append(":");
        S::hint_info_end(buffer);
        buffer.append(S::NEWLINE);
        proof {
            assert(buffer@ =~= old(buffer)@ + help_line::<S>(description@));
        }
    }

    /// Appends a line of advice: `= hint: first defined here`.
    pub fn fmt_suggestion_hint(buffer: &mut String, hint: &str, line_number_digits: usize)
        ensures
            final(buffer)@ == old(buffer)@ + hint_note::<S>(hint@, line_number_digits as nat),
    {
        Self::fmt_gutter(buffer, line_number_digits);

        S::hint_info_begin(buffer);
        buffer.append("= hint: ");
        buffer.append(hint);
        S::hint_info_end(buffer);

        buffer.append(S::NEWLINE);
        proof {
            assert(buffer@ =~= old(buffer)@ + hint_note::<S>(hint@, line_number_digits as nat));
        }
    }

    /// Appends the block of source text: a row with only the margin line,
    /// the lines of the context with their numbers, the markers beneath the
    /// line that holds the value, and a closing row with only the margin
    /// line unless the block ends with the markers.
    ///
    /// Where the context starts in the middle of a line, its first line is
    /// shown between dots, and the markers are followed by the column number
    /// of the value.
    pub fn fmt_source_highlighted(
        buffer: &mut String,
        source_highlighted: &SourceHighlighted,
        highlight_level: HighlightLevel,
        line_number_digits: usize,
        marker: &str,
    )
        ensures
            final(buffer)@ == old(buffer)@ + source_block::<S>(
                source_highlighted@,
                highlight_level,
                line_number_digits as nat,
                marker@,
            ),
    {
        let context = &source_highlighted.expr_context.inner;
        let ghost source = source_highlighted@;
        let ghost width = line_number_digits as nat;

        Self::fmt_margin_row(buffer, line_number_digits);
        let ghost opened = buffer@;

        let is_partial_line = context.col_number > 1;
        let context_lines = split_lines(context.value.as_str());
        assert(views_of(context_lines@).len() == context_lines@.len());

        let mut index: usize = 0;
        let mut marked_last: bool = false;
        proof {
            lemma_append_nothing(opened);
        }
        while index < context_lines.len()
            invariant
                index <= context_lines.len(),
                source == source_highlighted@,
                width == line_number_digits as nat,
                is_partial_line == source.is_partial_line(),
                views_of(context_lines@) == source.context_lines(),
                context_lines@.len() == source.context_lines().len(),
                marked_last == source.marks_line(index - 1),
                buffer@ == opened + rows_up_to::<S>(
                    source,
                    highlight_level,
                    width,
                    marker@,
                    index as nat,
                ),
            decreases context_lines.len() - index,
        {
            let ghost before = rows_up_to::<S>(
                source,
                highlight_level,
                width,
                marker@,
                index as nat,
            );
            marked_last = Self::fmt_line_rows(
                buffer,
                source_highlighted,
                highlight_level,
                line_number_digits,
                marker,
                &context_lines,
                index,
            );
            proof {
                lemma_append_twice(
                    opened,
                    before,
                    line_rows::<S>(source, highlight_level, width, marker@, index as int),
                );
            }
            index = index + 1;
        }

        let ghost rows = rows_up_to::<S>(
            source,
            highlight_level,
            width,
            marker@,
            source.context_lines().len(),
        );
        if !marked_last || is_partial_line {
            Self::fmt_margin_row(buffer, line_number_digits);
        } else {
            proof {
                lemma_append_nothing(buffer@);
            }
        }
        proof {
            let closing = if closes_with_margin_row(source) {
                margin_row::<S>(width)
            } else {
                Seq::empty()
            };
            assert(buffer@ == (opened + rows) + closing);
            lemma_append_twice(old(buffer)@, margin_row::<S>(width), rows);
            lemma_append_twice(old(buffer)@, margin_row::<S>(width) + rows, closing);
        }
    }

    /// Appends the rows for the context line at `index`: the line itself,
    /// and beneath it the markers, and the column callout, where they belong
    /// there. Returns whether the markers were written.
    fn fmt_line_rows(
        buffer: &mut String,
        source_highlighted: &SourceHighlighted,
        highlight_level: HighlightLevel,
        line_number_digits: usize,
        marker: &str,
        context_lines: &Vec<&str>,
        index: usize,
    ) -> (marked: bool)
        requires
            views_of(context_lines@) == source_highlighted@.context_lines(),
            index < context_lines.len(),
        ensures
            marked == source_highlighted@.marks_line(index as int),
            final(buffer)@ == old(buffer)@ + line_rows::<S>(
                source_highlighted@,
                highlight_level,
                line_number_digits as nat,
                marker@,
                index as int,
            ),
    {
        let context = &source_highlighted.expr_context.inner;
        let ghost source = source_highlighted@;
        let ghost width = line_number_digits as nat;
        let is_partial_line = context.col_number > 1;
        let current_line_number: u128 = context.line_number as u128 + index as u128;
        let surround_with_dots = is_partial_line && index == 0;
        assert(views_of(context_lines@).len() == context_lines@.len());
        assert(views_of(context_lines@)[index as int] == context_lines@[index as int]@);

        Self::fmt_expr_context(
            buffer,
            line_number_digits,
            context_lines[index],
            current_line_number,
            surround_with_dots,
        );
        let ghost shown = buffer@;
        let ghost row = context_row::<S>(
            width,
            source.line_number_at(index as int),
            source.context_lines()[index as int],
            surrounds_with_dots(source, index as int),
        );
        assert(shown == old(buffer)@ + row);

        let mut marked: bool = false;
        match &source_highlighted.expr {
            Some(expr) => {
                if current_line_number == expr.inner.line_number as u128 {
                    Self::fmt_expr_highlighted(
                        buffer,
                        highlight_level,
                        expr,
                        line_number_digits,
                        context.col_number,
                        marker,
                    );
                    let ghost underlined = buffer@;
                    if is_partial_line {
                        Self::fmt_expr_column_hint(
                            buffer,
                            highlight_level,
                            line_number_digits,
                            context.col_number,
                            expr.inner.col_number,
                        );
                    } else {
                        proof {
                            lemma_append_nothing(underlined);
                        }
                    }
                    marked = true;
                    proof {
                        let markers = marker_row::<S>(
                            width,
                            highlight_level,
                            source.expr_context.inner.col_number,
                            expr@,
                            marker@,
                        );
                        let callout = if source.is_partial_line() {
                            column_callout::<S>(
                                width,
                                highlight_level,
                                source.expr_context.inner.col_number,
                                expr@.inner.col_number,
                            )
                        } else {
                            Seq::empty()
                        };
                        assert(buffer@ == (shown + markers) + callout);
                        lemma_append_twice(shown, markers, callout);
                        assert(rows_beneath::<S>(
                            source,
                            highlight_level,
                            width,
                            marker@,
                            index as int,
                        ) == markers + callout);
                    }
                } else {
                    proof {
                        lemma_append_nothing(shown);
                    }
                }
            },
            None => {
                proof {
                    lemma_append_nothing(shown);
                }
            },
        }
        proof {
            let beneath = rows_beneath::<S>(source, highlight_level, width, marker@, index as int);
            assert(buffer@ == shown + beneath);
            lemma_append_twice(old(buffer)@, row, beneath);
        }
        marked
    }

    /// Appends the empty number column: as many spaces as the line numbers
    /// are wide, and at least one.
    fn fmt_number_column(buffer: &mut String, line_number_digits: usize)
        ensures
            final(buffer)@ == old(buffer)@ + spaces(number_column(line_number_digits as nat)),
    {
        if line_number_digits == 0 {
            push_spaces(buffer, 1);
        } else {
            push_spaces(buffer, line_number_digits);
        }
    }

    /// Appends the left margin of a row without a line number.
    fn fmt_gutter(buffer: &mut String, line_number_digits: usize)
        ensures
            final(buffer)@ == old(buffer)@ + gutter(line_number_digits as nat),
    {
        push_spaces(buffer, 1);
        Self::fmt_number_column(buffer, line_number_digits);
        push_spaces(buffer, 1);
        proof {
            assert(buffer@ =~= old(buffer)@ + gutter(line_number_digits as nat));
        }
    }

    /// Appends the margin line, in the margin's style.
    fn fmt_margin_line(buffer: &mut String)
        ensures
            final(buffer)@ == old(buffer)@ + margin_line::<S>(),
    {
        S::margin_begin(buffer);
        buffer.append(S::MARGIN_LINE);
        S::margin_end(buffer);
        proof {
            assert(buffer@ =~= old(buffer)@ + margin_line::<S>());
        }
    }

    /// Appends a row that holds nothing but the margin line.
    fn fmt_margin_row(buffer: &mut String, line_number_digits: usize)
        ensures
            final(buffer)@ == old(buffer)@ + margin_row::<S>(line_number_digits as nat),
    {
        Self::fmt_gutter(buffer, line_number_digits);
        Self::fmt_margin_line(buffer);
        buffer.append(S::NEWLINE);
        proof {
            assert(buffer@ =~= old(buffer)@ + margin_row::<S>(line_number_digits as nat));
        }
    }

    /// Appends one line of the context: its number, the margin line, and
    /// the text, between dots where only a part of the line is shown.
    pub fn fmt_expr_context(
        buffer: &mut String,
        line_number_digits: usize,
        line: &str,
        current_line_number: u128,
        surround_with_dots: bool,
    )
        ensures
            final(buffer)@ == old(buffer)@ + context_row::<S>(
                line_number_digits as nat,
                current_line_number as nat,
                line@,
                surround_with_dots,
            ),
    {
        S::margin_begin(buffer);
        push_spaces(buffer, 1);
        push_centered_decimal(buffer, current_line_number, line_number_digits);
        push_spaces(buffer, 1);
        buffer.append(S::MARGIN_LINE);
        S::margin_end(buffer);

        buffer.append(" ");

        if surround_with_dots {
            buffer.append(".. ");
        }

        buffer.append(line);

        if surround_with_dots {
            buffer.append(" ..");
        }

        buffer.append(S::NEWLINE);
        proof {
            assert(buffer@ =~= old(buffer)@ + context_row::<S>(
                line_number_digits as nat,
                current_line_number as nat,
                line@,
                surround_with_dots,
            ));
        }
    }

    /// Appends the spaces between the start of a shown context line and the
    /// cell beneath the first character of a value on it.
    fn fmt_marker_indent(
        buffer: &mut String,
        context_col_number: usize,
        expr_col_number: usize,
    )
        ensures
            final(buffer)@ == old(buffer)@ + spaces(
                marker_indent(context_col_number as nat, expr_col_number as nat),
            ),
    {
        if context_col_number > 1 {
            push_spaces(buffer, 3);
        }
        if expr_col_number >= context_col_number {
            push_spaces(buffer, expr_col_number - context_col_number);
        }
        proof {
            assert(buffer@ =~= old(buffer)@ + spaces(
                marker_indent(context_col_number as nat, expr_col_number as nat),
            ));
        }
    }

    /// Appends the row that underlines `expr`: one marker for each character
    /// of its value, beneath the value, and its hint behind the markers.
    pub fn fmt_expr_highlighted(
        buffer: &mut String,
        highlight_level: HighlightLevel,
        expr: &ExprHighlighted,
        line_number_digits: usize,
        context_col_number: usize,
        marker: &str,
    )
        ensures
            final(buffer)@ == old(buffer)@ + marker_row::<S>(
                line_number_digits as nat,
                highlight_level,
                context_col_number as nat,
                expr@,
                marker@,
            ),
    {
        let expr_char_count = expr.inner.value.as_str().unicode_len();

        Self::fmt_gutter(buffer, line_number_digits);
        Self::fmt_margin_line(buffer);
        buffer.append(" ");

        Self::style_marker_begin(buffer, highlight_level);
        Self::fmt_marker_indent(buffer, context_col_number, expr.inner.col_number);
        push_repeated(buffer, marker, expr_char_count);
        Self::style_marker_end(buffer, highlight_level);

        S::hint_error_begin(buffer);
        match &expr.hint {
            Some(hint) => {
                buffer.append(" hint: ");
                buffer.append(hint.as_str());
            },
            None => {},
        }
        S::hint_error_end(buffer);

        buffer.append(S::NEWLINE);
        proof {
            assert(buffer@ =~= old(buffer)@ + marker_row::<S>(
                line_number_digits as nat,
                highlight_level,
                context_col_number as nat,
                expr@,
                marker@,
            ));
        }
    }

    /// Appends the two rows that name the column of a value on a line of
    /// which only a part is shown: a vertical bar beneath the first marker,
    /// and the column number beneath the bar.
    pub fn fmt_expr_column_hint(
        buffer: &mut String,
        highlight_level: HighlightLevel,
        line_number_digits: usize,
        context_col_number: usize,
        expr_col_number: usize,
    )
        ensures
            final(buffer)@ == old(buffer)@ + column_callout::<S>(
                line_number_digits as nat,
                highlight_level,
                context_col_number as nat,
                expr_col_number as nat,
            ),
    {
        Self::fmt_gutter(buffer, line_number_digits);
        Self::fmt_margin_line(buffer);
        buffer.append(" ");
        Self::fmt_marker_indent(buffer, context_col_number, expr_col_number);
        Self::style_marker_begin(buffer, highlight_level);
        buffer.append(S::ERROR_MARKER_VERTICAL);
        Self::style_marker_end(buffer, highlight_level);
        buffer.append(S::NEWLINE);

        Self::fmt_gutter(buffer, line_number_digits);
        buffer.append("|");
        buffer.append(" ");
        Self::fmt_marker_indent(buffer, context_col_number, expr_col_number);
        push_decimal(buffer, expr_col_number as u128);
        buffer.append(S::NEWLINE);
        proof {
            assert(buffer@ =~= old(buffer)@ + column_callout::<S>(
                line_number_digits as nat,
                highlight_level,
                context_col_number as nat,
                expr_col_number as nat,
            ));
        }
    }

    /// Returns the number of digits that `value_max` has.
    pub fn digits(value_max: usize) -> (count: usize)
        ensures
            count == digits(value_max as nat),
            count >= 1,
    {
        count_digits(value_max as u128)
    }

    /// Writes the token that goes before markers of the given level.
    fn style_marker_begin(buffer: &mut String, highlight_level: HighlightLevel)
        ensures
            final(buffer)@ == old(buffer)@ + S::begin_token(marker_part(highlight_level)),
    {
        match highlight_level {
            HighlightLevel::Error => S::error_marker_begin(buffer),
            HighlightLevel::Warning => S::warning_marker_begin(buffer),
            HighlightLevel::Info => S::hint_marker_begin(buffer),
        }
    }

    /// Writes the token that goes after markers of the given level.
    fn style_marker_end(buffer: &mut String, highlight_level: HighlightLevel)
        ensures
            final(buffer)@ == old(buffer)@ + S::end_token(marker_part(highlight_level)),
    {
        match highlight_level {
            HighlightLevel::Error => S::error_marker_end(buffer),
            HighlightLevel::Warning => S::warning_marker_end(buffer),
            HighlightLevel::Info => S::hint_marker_end(buffer),
        }
    }
}

} // verus!
