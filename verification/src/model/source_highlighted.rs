use vstd::prelude::*;

use crate::model::expr_highlighted::{ExprHighlighted, ExprHighlightedView};
use crate::text::lines;

verus! {

/// The part of the source text to show, and the value in it to mark.
///
/// The formatter prints `expr_context` line by line and underlines `expr`
/// where a printed line carries its line number. It is up to the caller to
/// pick an `expr` that lies inside the context: one that lies outside is not
/// marked.
#[derive(Clone, Debug, PartialEq, Eq)]
pub struct SourceHighlighted {
    /// Path of the file that the source text comes from.
    pub path: Option<String>,
    /// The surrounding text to print: one or more lines, starting at the
    /// line and column it gives.
    pub expr_context: ExprHighlighted,
    /// The value of interest inside the context. `None` where the whole
    /// context is of interest.
    pub expr: Option<ExprHighlighted>,
}

/// The mathematical value of a [`SourceHighlighted`].
pub struct SourceHighlightedView {
    pub path: Option<Seq<char>>,
    pub expr_context: ExprHighlightedView,
    pub expr: Option<ExprHighlightedView>,
}

impl View for SourceHighlighted {
    type V = SourceHighlightedView;

    open spec fn view(&self) -> SourceHighlightedView {
        SourceHighlightedView {
            path: match self.path {
                Some(path) => Some(path@),
                None => None,
            },
            expr_context: self.expr_context@,
            expr: match self.expr {
                Some(expr) => Some(expr@),
                None => None,
            },
        }
    }
}

impl SourceHighlightedView {
    /// The context is well located, and so is the value to mark, which lies
    /// inside the context: on one of its lines, and, where that is the first
    /// line, not in front of the column at which the context starts.
    ///
    /// This is what the caller owes. The formatter does not rely on it: a
    /// value on a line outside the context is not marked, and a value that
    /// starts in front of the context is marked as if it started with it.
    pub open spec fn wf(&self) -> bool {
        &&& self.expr_context.inner.wf()
        &&& self.expr matches Some(expr) ==> {
            &&& expr.inner.wf()
            &&& self.marks_line(expr.inner.line_number - self.expr_context.inner.line_number)
            &&& expr.inner.line_number == self.expr_context.inner.line_number
                ==> expr.inner.col_number >= self.expr_context.inner.col_number
        }
    }

    /// Whether the context starts in the middle of a line, so that only a
    /// part of its first line is shown. This goes by the starting column
    /// alone, not by what the text holds.
    pub open spec fn is_partial_line(&self) -> bool {
        self.expr_context.inner.col_number > 1
    }

    /// The lines of the context, in the order they are printed.
    pub open spec fn context_lines(&self) -> Seq<Seq<char>> {
        lines(self.expr_context.inner.value)
    }

    /// The line number printed beside the context line at `index`.
    pub open spec fn line_number_at(&self, index: int) -> nat {
        (self.expr_context.inner.line_number + index) as nat
    }

    /// Whether the context line at `index` is the one that `expr` is on.
    pub open spec fn marks_line(&self, index: int) -> bool {
        &&& 0 <= index < self.context_lines().len()
        &&& self.expr matches Some(expr)
        &&& expr.inner.line_number == self.line_number_at(index)
    }

    /// The largest line number printed beside the context. A context without
    /// lines counts as its starting line.
    pub open spec fn last_line_number(&self) -> nat {
        if self.context_lines().len() == 0 {
            self.expr_context.inner.line_number
        } else {
            self.line_number_at(self.context_lines().len() - 1)
        }
    }
}

} // verus!
