//! The lines that the walk writes, kept in a vector until someone prints them.
//!
//! A function that has something to say takes the vector as `out` and adds
//! lines at its end; its contract states which, over `out.deep_view()`, the
//! lines as a sequence of texts.

use vstd::prelude::*;
use vstd::string::*;

verus! {

/// Adds `line` after the lines written so far.
pub fn put(out: &mut Vec<String>, line: String)
    ensures
        final(out).deep_view() == old(out).deep_view().push(line@),
{
    out.push(line);
    assert(out.deep_view() =~= old(out).deep_view().push(line@));
}

/// Adds a line that holds `text`.
pub fn put_line(out: &mut Vec<String>, text: &str)
    ensures
        final(out).deep_view() == old(out).deep_view().push(text@),
{
    put(out, text.to_owned());
}

/// Adds a line that holds `label` followed by `value`.
pub fn put_labelled(out: &mut Vec<String>, label: &str, value: &str)
    ensures
        final(out).deep_view() == old(out).deep_view().push(label@ + value@),
{
    let mut line = label.to_owned();
    line.append(value);
    put(out, line);
}

} // verus!
