use vstd::prelude::*;

use crate::model::severity::Severity;
use crate::model::source_highlighted::{SourceHighlighted, SourceHighlightedView};
use crate::model::suggestion::{Suggestion, SuggestionView};

verus! {

/// An error in source text: what is wrong, where, and what may help.
#[derive(Clone, Debug, PartialEq, Eq)]
pub struct SourceError<E> {
    /// Which of the application's errors this is.
    pub error_code: E,
    /// The source text that holds the offending value.
    pub invalid_source: SourceHighlighted,
    /// What to tell the user beneath the source text, in this order.
    pub suggestions: Vec<Suggestion>,
    /// Whether this is reported as an error or as a warning.
    pub severity: Severity,
}

/// The mathematical value of a [`SourceError`], but for its error code: what
/// that shows of itself is for the error code to say.
pub struct SourceErrorView {
    pub invalid_source: SourceHighlightedView,
    pub suggestions: Seq<SuggestionView>,
    pub severity: Severity,
}

/// The value of each of `suggestions`.
pub open spec fn suggestion_views(suggestions: Seq<Suggestion>) -> Seq<SuggestionView> {
    Seq::new(suggestions.len(), |i: int| suggestions[i]@)
}

impl<E> View for SourceError<E> {
    type V = SourceErrorView;

    open spec fn view(&self) -> SourceErrorView {
        SourceErrorView {
            invalid_source: self.invalid_source@,
            suggestions: suggestion_views(self.suggestions@),
            severity: self.severity,
        }
    }
}

} // verus!
