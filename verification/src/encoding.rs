//! Where the space byte stands in the UTF-8 encoding of a text.
//!
//! A string is searched byte by byte, while its contract speaks of characters.
//! The lemmas here carry a statement about the byte `0x20` in `encode_utf8(text)`
//! over to one about the character `' '` in `text`.

use vstd::prelude::*;
use vstd::utf8::*;

verus! {

/// The byte that encodes the space character.
pub const SPACE: u8 = 0x20;

/// None of the first `end` bytes is a space byte.
pub open spec fn no_space_before(bytes: Seq<u8>, end: int) -> bool
    recommends
        0 <= end <= bytes.len(),
{
    forall|j: int| 0 <= j < end ==> bytes[j] != SPACE
}

/// No byte is a space byte.
pub open spec fn no_space_byte(bytes: Seq<u8>) -> bool {
    no_space_before(bytes, bytes.len() as int)
}

/// No character of the text is a space.
pub open spec fn spaceless(text: Seq<char>) -> bool {
    forall|i: int| 0 <= i < text.len() ==> text[i] != ' '
}

proof fn lemma_single_byte(s: u32)
    by (bit_vector)
    requires
        s <= 0x7F,
    ensures
        (s & 0x7F) as u8 == s,
{
}

proof fn lemma_high_bytes(s: u32)
    by (bit_vector)
    ensures
        0xC0u8 | ((s >> 6) & 0x1F) as u8 >= 0x80u8,
        0xE0u8 | ((s >> 12) & 0x0F) as u8 >= 0x80u8,
        0xF0u8 | ((s >> 18) & 0x7) as u8 >= 0x80u8,
        0x80u8 | (s & 0x3F) as u8 >= 0x80u8,
        0x80u8 | ((s >> 6) & 0x3F) as u8 >= 0x80u8,
        0x80u8 | ((s >> 12) & 0x3F) as u8 >= 0x80u8,
{
}

/// The space character is encoded as the single byte `0x20`, and no other
/// character has that byte anywhere in its encoding.
pub proof fn lemma_encode_scalar_space(c: char)
    ensures
        1 <= encode_scalar(c as u32).len() <= 4,
        c == ' ' ==> encode_scalar(c as u32) == seq![SPACE],
        c != ' ' ==> no_space_byte(encode_scalar(c as u32)),
{
    let s = c as u32;
    char_is_scalar(c);
    lemma_high_bytes(s);
    if has_width_1_encoding(s) {
        lemma_single_byte(s);
    }
}

/// The encoding of a concatenation is the concatenation of the encodings.
pub proof fn lemma_encode_utf8_concat(a: Seq<char>, b: Seq<char>)
    ensures
        encode_utf8(a + b) == encode_utf8(a) + encode_utf8(b),
    decreases a.len(),
{
    if a.len() == 0 {
        assert(a + b =~= b);
        assert(encode_utf8(a) + encode_utf8(b) =~= encode_utf8(b));
    } else {
        assert((a + b).drop_first() =~= a.drop_first() + b);
        lemma_encode_utf8_concat(a.drop_first(), b);
        assert(encode_utf8(a + b) =~= encode_utf8(a) + encode_utf8(b));
    }
}

/// A text without a space has an encoding without a space byte.
pub proof fn lemma_spaceless_encoding(text: Seq<char>)
    requires
        spaceless(text),
    ensures
        no_space_byte(encode_utf8(text)),
    decreases text.len(),
{
    if text.len() > 0 {
        lemma_encode_scalar_space(text[0]);
        lemma_spaceless_encoding(text.drop_first());
    }
}

} // verus!
