//! Words and one-character tokens, as characters and as UTF-8 bytes.
//!
//! Tokens and words are found by looking at bytes; the contracts speak of
//! characters. The lemmas here carry a statement from one to the other.

use vstd::prelude::*;
use vstd::utf8::*;

verus! {

/// The code of the space character, which is also its one-byte encoding.
pub const SPACE: u8 = 0x20;

/// The number of characters in front of the first space of `text`; the
/// length of `text` if it holds no space.
pub open spec fn word_len(text: Seq<char>) -> nat
    decreases text.len(),
{
    if text.len() == 0 || text[0] == ' ' {
        0
    } else {
        1 + word_len(text.drop_first())
    }
}

/// `word_len` stays within the text, no space stands in front of it, and
/// where it ends before the text does, a space follows.
pub proof fn lemma_word_len(text: Seq<char>)
    ensures
        word_len(text) <= text.len(),
        forall|j: int| 0 <= j < word_len(text) ==> text[j] != ' ',
        word_len(text) < text.len() ==> text[word_len(text) as int] == ' ',
    decreases text.len(),
{
    if text.len() > 0 && text[0] != ' ' {
        let rest = text.drop_first();
        lemma_word_len(rest);
        assert forall|j: int| 0 <= j < word_len(text) implies text[j] != ' ' by {
            if j > 0 {
                assert(text[j] == rest[j - 1]);
            }
        }
    }
}

/// The encoding of a text that is not empty is not empty.
proof fn lemma_encoding_not_empty(text: Seq<char>)
    requires
        text.len() > 0,
    ensures
        encode_utf8(text).len() > 0,
{
}

/// A text is encoded in a single byte exactly when it is a single ASCII
/// character, and that byte is then the character's code.
pub proof fn lemma_single_byte(text: Seq<char>)
    ensures
        encode_utf8(text).len() == 1 <==> text.len() == 1 && text[0] as u32 <= 0x7f,
        encode_utf8(text).len() == 1 ==> encode_utf8(text)[0] as char == text[0],
{
    if text.len() > 0 {
        let c = text[0] as u32;
        let rest = text.drop_first();
        assert(encode_utf8(text) == encode_scalar(c) + encode_utf8(rest));
        if rest.len() > 0 {
            lemma_encoding_not_empty(rest);
        }
        if has_width_1_encoding(c) {
            assert(leading_byte_width_1(c) as u32 == c) by (bit_vector)
                requires
                    has_width_1_encoding(c),
            ;
            char_u32_cast(text[0], c);
        }
    }
}

/// A space is encoded as the byte `SPACE`, and no byte of the encoding of
/// any other character is `SPACE`.
pub proof fn lemma_space_byte(c: char)
    ensures
        c == ' ' ==> encode_scalar(c as u32) == seq![SPACE],
        c != ' ' ==> forall|j: int|
            0 <= j < encode_scalar(c as u32).len() ==> #[trigger] encode_scalar(c as u32)[j]
                != SPACE,
{
    let v = c as u32;
    char_is_scalar(c);
    if has_width_1_encoding(v) {
        assert(leading_byte_width_1(v) as u32 == v) by (bit_vector)
            requires
                has_width_1_encoding(v),
        ;
        if c != ' ' {
            char_u32_cast(c, v);
            char_u32_cast(' ', 0x20u32);
        }
    } else {
        assert(leading_byte_width_2(v) >= 0x80 && leading_byte_width_3(v) >= 0x80
            && leading_byte_width_4(v) >= 0x80 && last_continuation_byte(v) >= 0x80
            && second_last_continuation_byte(v) >= 0x80 && third_last_continuation_byte(v)
            >= 0x80) by (bit_vector);
    }
}

/// The bytes in front of the first `SPACE` byte of an encoding are the
/// encoding of the characters in front of the first space.
proof fn lemma_word_bytes(text: Seq<char>, at: int)
    requires
        0 <= at <= encode_utf8(text).len(),
        forall|j: int| 0 <= j < at ==> encode_utf8(text)[j] != SPACE,
        at < encode_utf8(text).len() ==> encode_utf8(text)[at] == SPACE,
    ensures
        encode_utf8(text).subrange(0, at) == encode_utf8(text.take(word_len(text) as int)),
    decreases text.len(),
{
    let bytes = encode_utf8(text);
    let word = text.take(word_len(text) as int);
    if text.len() == 0 {
        assert(bytes.subrange(0, at) =~= encode_utf8(word));
    } else {
        let head = encode_scalar(text[0] as u32);
        let rest = text.drop_first();
        lemma_space_byte(text[0]);
        assert(bytes == head + encode_utf8(rest));
        if text[0] == ' ' {
            assert(bytes[0] == SPACE);
            assert(bytes.subrange(0, at) =~= encode_utf8(word));
        } else {
            let n = head.len() as int;
            assert(at >= n) by {
                if at < n {
                    assert(bytes[at] == head[at]);
                }
            }
            assert forall|j: int| 0 <= j < at - n implies encode_utf8(rest)[j] != SPACE by {
                assert(encode_utf8(rest)[j] == bytes[j + n]);
            }
            if at - n < encode_utf8(rest).len() {
                assert(encode_utf8(rest)[at - n] == bytes[at]);
            }
            lemma_word_bytes(rest, at - n);
            lemma_word_len(rest);
            assert(word.drop_first() =~= rest.take(word_len(rest) as int));
            assert(bytes.subrange(0, at) =~= head + encode_utf8(rest).subrange(0, at - n));
        }
    }
}

/// Where the first `SPACE` byte of the encoding of a text stands, or where
/// the encoding ends without one, the text can be cut, and what is cut off
/// in front is the text up to its first space.
pub proof fn lemma_first_space(text: Seq<char>, at: int)
    requires
        0 <= at <= encode_utf8(text).len(),
        forall|j: int| 0 <= j < at ==> encode_utf8(text)[j] != SPACE,
        at < encode_utf8(text).len() ==> encode_utf8(text)[at] == SPACE,
    ensures
        is_char_boundary(encode_utf8(text), at),
        decode_utf8(encode_utf8(text).subrange(0, at)) == text.take(word_len(text) as int),
{
    broadcast use group_utf8_lib;

    lemma_word_bytes(text, at);
    if at < encode_utf8(text).len() {
        assert(!is_continuation_byte(encode_utf8(text)[at]));
    }
}

} // verus!
