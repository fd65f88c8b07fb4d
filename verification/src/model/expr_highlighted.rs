use vstd::prelude::*;

use crate::model::expr::{Expr, ExprView};

verus! {

/// An expression to point at, and an optional hint to print beside it.
#[derive(Clone, Debug, PartialEq, Eq)]
pub struct ExprHighlighted {
    /// The expression to highlight.
    pub inner: Expr,
    /// A single line of text shown next to the markers, if any.
    pub hint: Option<String>,
}

/// The mathematical value of an [`ExprHighlighted`].
pub struct ExprHighlightedView {
    pub inner: ExprView,
    pub hint: Option<Seq<char>>,
}

impl View for ExprHighlighted {
    type V = ExprHighlightedView;

    open spec fn view(&self) -> ExprHighlightedView {
        ExprHighlightedView {
            inner: self.inner@,
            hint: match self.hint {
                Some(hint) => Some(hint@),
                None => None,
            },
        }
    }
}

} // verus!
