use vstd::prelude::*;

use crate::model::source_ref_hint::{SourceRefHint, SourceRefHintView};

verus! {

/// Something to tell the user beneath the source text.
#[derive(Clone, Debug, PartialEq, Eq)]
pub enum Suggestion {
    /// The values that would have been accepted.
    ValidExprs(Vec<String>),
    /// Another part of the source text that explains the error.
    SourceRefHint(Box<SourceRefHint>),
    /// A single line of advice.
    Hint(String),
}

/// The mathematical value of a [`Suggestion`].
pub enum SuggestionView {
    ValidExprs(Seq<Seq<char>>),
    SourceRefHint(SourceRefHintView),
    Hint(Seq<char>),
}

/// The characters of each of `texts`.
pub open spec fn string_views(texts: Seq<String>) -> Seq<Seq<char>> {
    Seq::new(texts.len(), |i: int| texts[i]@)
}

impl View for Suggestion {
    type V = SuggestionView;

    open spec fn view(&self) -> SuggestionView {
        match self {
            Suggestion::ValidExprs(valid_exprs) => SuggestionView::ValidExprs(
                string_views(valid_exprs@),
            ),
            Suggestion::SourceRefHint(source_ref_hint) => SuggestionView::SourceRefHint(
                source_ref_hint@,
            ),
            Suggestion::Hint(hint) => SuggestionView::Hint(hint@),
        }
    }
}

} // verus!
