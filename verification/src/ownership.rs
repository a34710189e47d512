//! Functions that take, borrow and give back strings.

use vstd::prelude::*;
use vstd::string::StringExecFns;
use vstd::utf8::*;
use crate::text::{lemma_first_space, word_len, SPACE};

verus! {

/// The length of `s` in bytes.
pub fn calculate_length(s: &String) -> (length: usize)
    ensures
        length == encode_utf8(s@).len(),
{
    s.as_str().as_bytes().len()
}

/// Appends `", world"` to the string.
pub fn change(some_string: &mut String)
    ensures
        final(some_string)@ == old(some_string)@ + ", world"@,
{
    some_string.append(", world");
}

/// The part of `s` in front of its first space; all of `s` if it holds none.
pub fn first_word(s: &str) -> (word: &str)
    ensures
        word@ == s@.take(word_len(s@) as int),
{
    let bytes = s.as_bytes();
    let mut i: usize = 0;
    while i < bytes.len()
        invariant
            bytes@ == encode_utf8(s@),
            i <= bytes@.len(),
            forall|j: int| 0 <= j < i ==> bytes@[j] != SPACE,
        decreases bytes@.len() - i,
    {
        if bytes[i] == SPACE {
            proof {
                lemma_first_space(s@, i as int);
            }
            let word = s.split_at(i).0;
            proof {
                encode_utf8_decode_utf8(word@);
            }
            return word;
        }
        i += 1;
    }
    proof {
        lemma_first_space(s@, i as int);
        encode_utf8_decode_utf8(s@);
        assert(bytes@.subrange(0, i as int) =~= bytes@);
    }
    s
}

/// A new string that holds `"yours"`.
pub fn gives_ownership() -> (some_string: String)
    ensures
        some_string@ == "yours"@,
{
    let some_string = "yours".to_owned();
    some_string
}

/// The string it was given.
pub fn takes_and_gives_back(a_string: String) -> (same: String)
    ensures
        same == a_string,
{
    a_string
}

/// The string it was given, and its length in bytes.
pub fn calculate_length_and_return(s: String) -> (pair: (String, usize))
    ensures
        pair.0 == s,
        pair.1 == encode_utf8(s@).len(),
{
    let length = s.as_str().as_bytes().len();
    (s, length)
}

} // verus!
