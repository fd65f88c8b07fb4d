use vstd::prelude::*;

use crate::formatter::styler::{StyledPart, Styler};
use crate::text::lemma_append_nothing;

verus! {

/// Leaves the text as it is: every token is empty.
#[derive(Debug)]
pub struct PlainTextStyler;

impl Styler for PlainTextStyler {
    const NEWLINE: &'static str = "\n";

    const MARGIN_LINE: &'static str = "|";

    const ERROR_MARKER: &'static str = "^";

    const ERROR_MARKER_VERTICAL: &'static str = "|";

    const HINT_MARKER: &'static str = "-";

    open spec fn begin_token(part: StyledPart) -> Seq<char> {
        Seq::empty()
    }

    open spec fn end_token(part: StyledPart) -> Seq<char> {
        Seq::empty()
    }

    fn margin_begin(buffer: &mut String) {
        proof {
            lemma_append_nothing(buffer@);
        }
    }

    fn margin_end(buffer: &mut String) {
        proof {
            lemma_append_nothing(buffer@);
        }
    }

    fn error_code_begin(buffer: &mut String) {
        proof {
            lemma_append_nothing(buffer@);
        }
    }

    fn error_code_end(buffer: &mut String) {
        proof {
            lemma_append_nothing(buffer@);
        }
    }

    fn error_tag_begin(buffer: &mut String) {
        proof {
            lemma_append_nothing(buffer@);
        }
    }

    fn error_tag_end(buffer: &mut String) {
        proof {
            lemma_append_nothing(buffer@);
        }
    }

    fn error_description_begin(buffer: &mut String) {
        proof {
            lemma_append_nothing(buffer@);
        }
    }

    fn error_description_end(buffer: &mut String) {
        proof {
            lemma_append_nothing(buffer@);
        }
    }

    fn error_marker_begin(buffer: &mut String) {
        proof {
            lemma_append_nothing(buffer@);
        }
    }

    fn error_marker_end(buffer: &mut String) {
        proof {
            lemma_append_nothing(buffer@);
        }
    }

    fn hint_marker_begin(buffer: &mut String) {
        proof {
            lemma_append_nothing(buffer@);
        }
    }

    fn hint_marker_end(buffer: &mut String) {
        proof {
            lemma_append_nothing(buffer@);
        }
    }

    fn hint_error_begin(buffer: &mut String) {
        proof {
            lemma_append_nothing(buffer@);
        }
    }

    fn hint_error_end(buffer: &mut String) {
        proof {
            lemma_append_nothing(buffer@);
        }
    }

    fn hint_info_begin(buffer: &mut String) {
        proof {
            lemma_append_nothing(buffer@);
        }
    }

    fn hint_info_end(buffer: &mut String) {
        proof {
            lemma_append_nothing(buffer@);
        }
    }

    fn number_begin(buffer: &mut String) {
        proof {
            lemma_append_nothing(buffer@);
        }
    }

    fn number_end(buffer: &mut String) {
        proof {
            lemma_append_nothing(buffer@);
        }
    }

    fn path_begin(buffer: &mut String) {
        proof {
            lemma_append_nothing(buffer@);
        }
    }

    fn path_end(buffer: &mut String) {
        proof {
            lemma_append_nothing(buffer@);
        }
    }

    fn warning_marker_begin(buffer: &mut String) {
        proof {
            lemma_append_nothing(buffer@);
        }
    }

    fn warning_marker_end(buffer: &mut String) {
        proof {
            lemma_append_nothing(buffer@);
        }
    }

    fn warning_tag_begin(buffer: &mut String) {
        proof {
            lemma_append_nothing(buffer@);
        }
    }

    fn warning_tag_end(buffer: &mut String) {
        proof {
            lemma_append_nothing(buffer@);
        }
    }
}

/// The glyphs of plain text: a line feed ends a line, `|` draws the margin
/// and connects markers to a column number, `^` marks an error and `-` a
/// hint.
pub proof fn lemma_plain_text_glyphs()
    ensures
        PlainTextStyler::NEWLINE@ == seq!['\n'],
        PlainTextStyler::MARGIN_LINE@ == seq!['|'],
        PlainTextStyler::ERROR_MARKER@ == seq!['^'],
        PlainTextStyler::ERROR_MARKER_VERTICAL@ == seq!['|'],
        PlainTextStyler::HINT_MARKER@ == seq!['-'],
{
    reveal_strlit("\n");
    reveal_strlit("|");
    reveal_strlit("^");
    reveal_strlit("-");
    assert(PlainTextStyler::NEWLINE@ =~= seq!['\n']);
    assert(PlainTextStyler::MARGIN_LINE@ =~= seq!['|']);
    assert(PlainTextStyler::ERROR_MARKER@ =~= seq!['^']);
    assert(PlainTextStyler::ERROR_MARKER_VERTICAL@ =~= seq!['|']);
    assert(PlainTextStyler::HINT_MARKER@ =~= seq!['-']);
}

} // verus!
