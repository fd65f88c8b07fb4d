use vstd::prelude::*;

use crate::model::span::Span;

verus! {

/// A value or section of the source text, and where it stands.
#[derive(Clone, Debug, PartialEq, Eq)]
pub struct Expr {
    /// Where the value stands in the source text, in bytes.
    pub span: Span,
    /// Line the value starts on, counted from 1.
    pub line_number: usize,
    /// Column the value starts at, counted in characters from 1.
    pub col_number: usize,
    /// The text of the value itself.
    pub value: String,
}

/// The mathematical value of an [`Expr`].
pub struct ExprView {
    pub span: Span,
    pub line_number: nat,
    pub col_number: nat,
    pub value: Seq<char>,
}

impl View for Expr {
    type V = ExprView;

    open spec fn view(&self) -> ExprView {
        ExprView {
            span: self.span,
            line_number: self.line_number as nat,
            col_number: self.col_number as nat,
            value: self.value@,
        }
    }
}

impl ExprView {
    /// Lines and columns are counted from 1, and the span runs forwards.
    ///
    /// This is what the caller owes of a value that it has located; the
    /// formatter prints whatever it is given.
    pub open spec fn wf(&self) -> bool {
        &&& self.span.wf()
        &&& self.line_number >= 1
        &&& self.col_number >= 1
    }
}

} // verus!
