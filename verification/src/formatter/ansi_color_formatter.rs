use vstd::prelude::*;

use crate::formatter::source_error_formatter::SourceErrorFormatter;

pub use self::ansi_color_styler::AnsiColorStyler;

pub mod ansi_color_styler;

verus! {

/// Formats a [`SourceError`](crate::model::SourceError) in bold and colour,
/// for a terminal.
pub type AnsiColorFormatter = SourceErrorFormatter<AnsiColorStyler>;

} // verus!
