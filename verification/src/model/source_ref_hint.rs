use vstd::prelude::*;

use crate::model::source_highlighted::{SourceHighlighted, SourceHighlightedView};

verus! {

/// Points at another part of the source text as a hint.
#[derive(Clone, Debug, PartialEq, Eq)]
pub struct SourceRefHint {
    /// The source text that the hint points at.
    pub source_ref: SourceHighlighted,
    /// One line that says why the place is of interest. It is printed as
    /// `help: {description}:` above the source text.
    pub description: String,
}

/// The mathematical value of a [`SourceRefHint`].
pub struct SourceRefHintView {
    pub source_ref: SourceHighlightedView,
    pub description: Seq<char>,
}

impl View for SourceRefHint {
    type V = SourceRefHintView;

    open spec fn view(&self) -> SourceRefHintView {
        SourceRefHintView { source_ref: self.source_ref@, description: self.description@ }
    }
}

} // verus!
