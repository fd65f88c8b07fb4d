//! Turning a [`SourceError`](crate::model::SourceError) into text.
//!
//! [`layout`] says what the text of a diagnostic is, [`SourceErrorFormatter`]
//! writes it, and [`lemmas`] holds what follows for every diagnostic. A
//! [`Styler`] decides on colours and markup.

pub mod ansi_color_formatter;
pub mod layout;
pub mod lemmas;
pub mod plain_text_formatter;
pub mod source_error_formatter;
pub mod styler;

pub use self::ansi_color_formatter::{AnsiColorFormatter, AnsiColorStyler};
pub use self::plain_text_formatter::{PlainTextFormatter, PlainTextStyler};
pub use self::source_error_formatter::SourceErrorFormatter;
pub use self::styler::{StyledPart, Styler};
