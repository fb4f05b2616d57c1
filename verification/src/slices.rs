//! String slices: the first word of a text.

use crate::encoding::{
    lemma_encode_scalar_space, lemma_encode_utf8_concat, lemma_spaceless_encoding,
    no_space_before, spaceless, SPACE,
};
use vstd::prelude::*;
use vstd::utf8::*;

verus! {

/// The text up to, and without, its first space; the whole text where it has none.
pub open spec fn first_word(text: Seq<char>) -> Seq<char> {
    match text.index_of_first(' ') {
        Some(i) => text.take(i),
        None => text,
    }
}

/// What makes `word` the first word of `text`: it starts the text, holds no
/// space, and ends where the text ends or where a space follows.
pub open spec fn is_first_word(word: Seq<char>, text: Seq<char>) -> bool {
    &&& word.len() <= text.len()
    &&& word == text.take(word.len() as int)
    &&& spaceless(word)
    &&& word.len() < text.len() ==> text[word.len() as int] == ' '
}

/// `first_word(text)` is a first word of `text`.
pub proof fn lemma_first_word_is_first_word(text: Seq<char>)
    ensures
        is_first_word(first_word(text), text),
{
    text.index_of_first_ensures(' ');
    match text.index_of_first(' ') {
        Some(i) => {},
        None => {
            assert(text.take(text.len() as int) =~= text);
            assert forall|i: int| 0 <= i < text.len() implies text[i] != ' ' by {
                assert(text.contains(text[i]));
            }
        },
    }
}

/// A text has one first word only.
pub proof fn lemma_first_word_unique(word: Seq<char>, text: Seq<char>)
    requires
        is_first_word(word, text),
    ensures
        word == first_word(text),
{
    text.index_of_first_ensures(' ');
    let n: int = word.len() as int;
    match text.index_of_first(' ') {
        Some(i) => {
            if i < n {
                assert(word[i] == text.take(n)[i]);
            }
            assert(i == n);
        },
        None => {
            if n < text.len() {
                assert(text.contains(text[n]));
            }
            assert(text.take(text.len() as int) =~= text);
        },
    }
}

/// The bytes before the first space byte of a text's encoding encode the
/// text's first word, and that space byte starts a character.
pub proof fn lemma_first_space_byte(text: Seq<char>, i: int)
    requires
        0 <= i <= encode_utf8(text).len(),
        no_space_before(encode_utf8(text), i),
        i < encode_utf8(text).len() ==> encode_utf8(text)[i] == SPACE,
    ensures
        is_char_boundary(encode_utf8(text), i),
        encode_utf8(text).subrange(0, i) == encode_utf8(first_word(text)),
{
    let bytes = encode_utf8(text);
    let word = first_word(text);
    let rest = text.skip(word.len() as int);
    let head = encode_utf8(word);
    lemma_first_word_is_first_word(text);
    assert(text =~= word + rest);
    lemma_encode_utf8_concat(word, rest);
    lemma_spaceless_encoding(word);
    if rest.len() > 0 {
        lemma_encode_scalar_space(rest[0]);
        assert(bytes[head.len() as int] == encode_utf8(rest)[0]);
    } else {
        assert(bytes =~= head);
    }
    assert(i == head.len()) by {
        if i < head.len() {
            assert(bytes[i] == head[i]);
        }
    }
    assert(bytes.subrange(0, i) =~= head);
    encode_utf8_valid_utf8(text);
    if i < bytes.len() {
        is_char_boundary_iff_not_is_continuation_byte(bytes, i);
    } else {
        is_char_boundary_start_end_of_seq(bytes);
    }
}

/// Returns the first word of `s`: the slice that ends before the first space,
/// or all of `s` where it holds no space.
pub fn get_first_word(s: &str) -> (word: &str)
    ensures
        word@ == first_word(s@),
        is_first_word(word@, s@),
{
    let bytes = s.as_bytes();
    let mut i: usize = 0;
    while i < bytes.len()
        invariant
            bytes@ == encode_utf8(s@),
            i <= bytes@.len(),
            no_space_before(bytes@, i as int),
        decreases bytes@.len() - i,
    {
        if bytes[i] == SPACE {
            proof {
                lemma_first_space_byte(s@, i as int);
            }
            let (word, _) = s.split_at(i);
            proof {
                encode_utf8_decode_utf8(word@);
                encode_utf8_decode_utf8(first_word(s@));
                lemma_first_word_is_first_word(s@);
            }
            return word;
        }
        i += 1;
    }
    proof {
        lemma_first_space_byte(s@, i as int);
        assert(bytes@.subrange(0, i as int) =~= bytes@);
        encode_utf8_decode_utf8(s@);
        encode_utf8_decode_utf8(first_word(s@));
        lemma_first_word_is_first_word(s@);
    }
    s
}

} // verus!
