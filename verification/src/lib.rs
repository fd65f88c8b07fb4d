//! Renders diagnostics that point into source text.
//!
//! A [`SourceError`](crate::model::SourceError) names a place in a block of
//! text, says what is wrong with it, and may carry suggestions. The
//! [`SourceErrorFormatter`](crate::formatter::SourceErrorFormatter) lays such
//! an error out as margin-aligned lines of text, with the offending value
//! underlined, and leaves colours and markup to a
//! [`Styler`](crate::formatter::Styler).
//!
//! Every function states the text it produces as a sequence of characters, so
//! the layout of a diagnostic can be read off the `spec` functions in
//! [`layout`](crate::formatter::layout) without running anything.

pub mod fmt;
pub mod formatter;
pub mod model;
pub mod text;

pub use crate::model::{
    ErrorCode, Expr, ExprHighlighted, HighlightLevel, Severity, SourceError, SourceHighlighted,
    SourceRefHint, Span, Suggestion,
};

pub use crate::formatter::{
    AnsiColorFormatter, AnsiColorStyler, PlainTextFormatter, PlainTextStyler, SourceErrorFormatter,
    Styler,
};
