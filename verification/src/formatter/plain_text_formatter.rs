use vstd::prelude::*;

use crate::formatter::source_error_formatter::SourceErrorFormatter;

pub use self::plain_text_styler::PlainTextStyler;

pub mod plain_text_styler;

verus! {

/// Formats a [`SourceError`](crate::model::SourceError) as plain text.
pub type PlainTextFormatter = SourceErrorFormatter<PlainTextStyler>;

} // verus!
