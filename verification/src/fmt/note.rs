use vstd::prelude::*;
use vstd::string::*;

use crate::model::suggestion::string_views;

verus! {

/// Each of `items` between backticks, with a comma and a space between one
/// and the next.
pub open spec fn quoted_list(items: Seq<Seq<char>>) -> Seq<char>
    decreases items.len(),
{
    if items.len() == 0 {
        Seq::empty()
    } else if items.len() == 1 {
        "`"@ + items[0] + "`"@
    } else {
        quoted_list(items.drop_last()) + ", `"@ + items.last() + "`"@
    }
}

/// The note that lists the values that would have been accepted.
pub open spec fn valid_exprs_text(valid_exprs: Seq<Seq<char>>) -> Seq<char> {
    "expected value to be one of: "@ + quoted_list(valid_exprs)
}

/// Appends each of `items` between backticks, with a comma and a space
/// between one and the next.
pub fn push_quoted_list(buffer: &mut String, items: &[String])
    ensures
        final(buffer)@ == old(buffer)@ + quoted_list(string_views(items@)),
{
    let ghost all = string_views(items@);
    let mut index: usize = 0;
    assert(all.take(0) =~= Seq::<Seq<char>>::empty());
    assert(buffer@ =~= old(buffer)@ + quoted_list(all.take(0)));
    while index < items.len()
        invariant
            index <= items.len(),
            all == string_views(items@),
            buffer@ == old(buffer)@ + quoted_list(all.take(index as int)),
        decreases items.len() - index,
    {
        let ghost before = buffer@;
        if index == 0 {
            buffer.append("`");
        } else {
            buffer.append(", `");
        }
        buffer.append(items[index].as_str());
        buffer.append("`");
        proof {
            let shown = all.take(index as int + 1);
            assert(shown.drop_last() =~= all.take(index as int));
            assert(shown.last() == items@[index as int]@);
            assert(buffer@ =~= old(buffer)@ + quoted_list(shown));
        }
        index = index + 1;
    }
    assert(all.take(index as int) =~= all);
}

/// Writes notes in sentences that read the same everywhere.
#[derive(Debug)]
pub struct Note;

impl Note {
    /// Returns a note that lists the values that would have been accepted.
    /// This never fails.
    pub fn valid_exprs(valid_exprs: &[String]) -> (note: Result<String, std::fmt::Error>)
        ensures
            note matches Ok(text) && text@ == valid_exprs_text(string_views(valid_exprs@)),
    {
        let mut buffer = String::new();
        let written = Self::fmt_valid_exprs(&mut buffer, valid_exprs);
        assert(buffer@ =~= valid_exprs_text(string_views(valid_exprs@)));
        Ok(buffer)
    }

    /// Appends a note that lists the values that would have been accepted.
    /// This never fails.
    pub fn fmt_valid_exprs(buffer: &mut String, valid_exprs: &[String]) -> (written: Result<
        (),
        std::fmt::Error,
    >)
        ensures
            written is Ok,
            final(buffer)@ == old(buffer)@ + valid_exprs_text(string_views(valid_exprs@)),
    {
        buffer.append("expected value to be one of: ");
        push_quoted_list(buffer, valid_exprs);
        assert(buffer@ =~= old(buffer)@ + valid_exprs_text(string_views(valid_exprs@)));
        Ok(())
    }
}

} // verus!
