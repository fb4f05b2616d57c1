//! Ownership: values that move into a function, out of it, or through it.
//!
//! Each function reports what it received as one line on `out`.

use crate::console::put_labelled;
use crate::decimal::{decimal, signed_decimal};
use vstd::prelude::*;
use vstd::string::*;

verus! {

/// The line that reports a string which a function now owns.
pub open spec fn received_ownership_line(text: Seq<char>) -> Seq<char> {
    "  Function received ownership of: "@ + text
}

/// The line that reports an integer which a function got a copy of.
pub open spec fn received_copy_line(i: int) -> Seq<char> {
    "  Function received a copy of: "@ + decimal(i)
}

/// The line that reports a string which a function has made.
pub open spec fn created_string_line(text: Seq<char>) -> Seq<char> {
    "  Function created a string: "@ + text
}

/// Takes ownership of `some_string`, reports it, and drops it.
pub fn takes_ownership(some_string: String, out: &mut Vec<String>)
    ensures
        final(out).deep_view() == old(out).deep_view().push(
            received_ownership_line(some_string@),
        ),
{
    put_labelled(out, "  Function received ownership of: ", some_string.as_str());
}

/// Takes a copy of `some_integer` and reports it; the caller's value stays valid.
pub fn makes_copy(some_integer: i32, out: &mut Vec<String>)
    ensures
        final(out).deep_view() == old(out).deep_view().push(
            received_copy_line(some_integer as int),
        ),
{
    let number = signed_decimal(some_integer as i64);
    put_labelled(out, "  Function received a copy of: ", number.as_str());
}

/// Makes the string `"yours"`, reports it, and hands it to the caller.
pub fn gives_ownership(out: &mut Vec<String>) -> (some_string: String)
    ensures
        some_string@ == "yours"@,
        final(out).deep_view() == old(out).deep_view().push(created_string_line("yours"@)),
{
    let some_string = String::from_str("yours");
    put_labelled(out, "  Function created a string: ", some_string.as_str());
    some_string
}

/// Takes ownership of `a_string`, reports it, and hands the same string back.
pub fn takes_and_gives_back(a_string: String, out: &mut Vec<String>) -> (returned: String)
    ensures
        returned == a_string,
        final(out).deep_view() == old(out).deep_view().push(
            received_ownership_line(a_string@),
        ),
{
    put_labelled(out, "  Function received ownership of: ", a_string.as_str());
    a_string
}

} // verus!
