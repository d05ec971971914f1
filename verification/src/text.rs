//! Measures of a text: its size in UTF-8 bytes and in UTF-16 code units, its
//! line breaks, and its last line.

use vstd::prelude::*;
use vstd::utf8::encode_scalar;
use vstd::utf8::encode_utf8;

verus! {

/// The number of bytes that `c` takes in UTF-8.
pub open spec fn utf8_len(c: char) -> nat {
    encode_scalar(c as u32).len()
}

/// The number of code units that `c` takes in UTF-16.
pub open spec fn utf16_len(c: char) -> nat {
    if (c as u32) < 0x10000 {
        1
    } else {
        2
    }
}

/// The number of bytes that `text` takes in UTF-8.
pub open spec fn utf8_size(text: Seq<char>) -> nat {
    encode_utf8(text).len()
}

/// The number of code units that `text` takes in UTF-16.
pub open spec fn utf16_size(text: Seq<char>) -> nat
    decreases text.len(),
{
    if text.len() == 0 {
        0
    } else {
        utf16_size(text.drop_last()) + utf16_len(text.last())
    }
}

/// The number of line feeds in `text`.
pub open spec fn line_breaks(text: Seq<char>) -> nat
    decreases text.len(),
{
    if text.len() == 0 {
        0
    } else if text.last() == '\n' {
        line_breaks(text.drop_last()) + 1
    } else {
        line_breaks(text.drop_last())
    }
}

/// What follows the last line feed of `text`; all of it where it has none.
pub open spec fn last_line(text: Seq<char>) -> Seq<char>
    decreases text.len(),
{
    if text.len() == 0 {
        text
    } else if text.last() == '\n' {
        Seq::empty()
    } else {
        last_line(text.drop_last()).push(text.last())
    }
}

/// `n` as a `u32`, or the largest `u32` where `n` does not fit.
pub open spec fn clamp_u32(n: nat) -> u32 {
    if n > u32::MAX {
        u32::MAX
    } else {
        n as u32
    }
}

/// A character takes one to four bytes in UTF-8, by its scalar value.
pub proof fn lemma_utf8_len(c: char)
    ensures
        utf8_len(c) == if (c as u32) < 0x80 {
            1nat
        } else if (c as u32) < 0x800 {
            2nat
        } else if (c as u32) < 0x10000 {
            3nat
        } else {
            4nat
        },
{
}

/// The UTF-8 size of a text grows by the size of the character appended.
pub proof fn lemma_utf8_size_push(text: Seq<char>, c: char)
    ensures
        utf8_size(text.push(c)) == utf8_size(text) + utf8_len(c),
        utf8_size(Seq::<char>::empty()) == 0,
    decreases text.len(),
{
    let longer = text.push(c);
    if text.len() == 0 {
        assert(longer.drop_first() =~= Seq::<char>::empty());
        assert(encode_utf8(longer) =~= encode_scalar(c as u32) + encode_utf8(
            Seq::<char>::empty(),
        ));
    } else {
        assert(longer.drop_first() =~= text.drop_first().push(c));
        lemma_utf8_size_push(text.drop_first(), c);
        assert(encode_utf8(longer) =~= encode_scalar(text[0] as u32) + encode_utf8(
            text.drop_first().push(c),
        ));
    }
}

} // verus!
