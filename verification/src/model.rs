//! The values a diagnostic is made of.
//!
//! These are plain data: a caller builds them once and hands them to the
//! formatter, which only reads them. Each type has a view, its mathematical
//! value, over which the layout of the rendered text is stated.

pub mod error_code;
pub mod expr;
pub mod expr_highlighted;
pub mod highlight_level;
pub mod severity;
pub mod source_error;
pub mod source_highlighted;
pub mod source_ref_hint;
pub mod span;
pub mod suggestion;

pub use self::error_code::{ErrorCode, ErrorCodeView};
pub use self::expr::{Expr, ExprView};
pub use self::expr_highlighted::{ExprHighlighted, ExprHighlightedView};
pub use self::highlight_level::HighlightLevel;
pub use self::severity::Severity;
pub use self::source_error::{SourceError, SourceErrorView};
pub use self::source_highlighted::{SourceHighlighted, SourceHighlightedView};
pub use self::source_ref_hint::{SourceRefHint, SourceRefHintView};
pub use self::span::Span;
pub use self::suggestion::{Suggestion, SuggestionView};
