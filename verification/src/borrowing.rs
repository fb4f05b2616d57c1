//! References: reading a string through `&`, changing it through `&mut`.

use vstd::prelude::*;
use vstd::string::*;
use vstd::utf8::*;

verus! {

/// The number of bytes that a text takes in UTF-8.
pub open spec fn byte_length(text: Seq<char>) -> nat {
    encode_utf8(text).len()
}

/// An ASCII text takes one byte for each character.
pub proof fn lemma_byte_length_ascii(text: Seq<char>)
    requires
        is_ascii_chars(text),
    ensures
        byte_length(text) == text.len(),
{
    is_ascii_chars_encode_utf8(text);
}

/// The byte length of a concatenation is the sum of the byte lengths.
pub proof fn lemma_byte_length_concat(a: Seq<char>, b: Seq<char>)
    ensures
        byte_length(a + b) == byte_length(a) + byte_length(b),
{
    crate::encoding::lemma_encode_utf8_concat(a, b);
}

/// Returns the length of `s` in bytes. The string is only borrowed: the caller
/// keeps it.
pub fn calculate_length(s: &String) -> (len: usize)
    ensures
        len == byte_length(s@),
        is_ascii_chars(s@) ==> len == s@.len(),
{
    proof {
        if is_ascii_chars(s@) {
            lemma_byte_length_ascii(s@);
        }
    }
    s.as_str().as_bytes().len()
}

/// Appends `", world"` to the string behind the mutable reference.
pub fn change(some_string: &mut String)
    ensures
        final(some_string)@ == old(some_string)@ + ", world"@,
{
    some_string.append(", world");
}

} // verus!
