//! Text, as the bytes of its UTF-8 encoding: where a text may be cut.

use crate::bytes::{first_occurrence, lemma_find_from, occurs_at, trim_leading, SLASH};
use vstd::prelude::*;
use vstd::utf8::{
    is_char_boundary, is_char_boundary_iff_not_is_continuation_byte,
    is_char_boundary_start_end_of_seq, length_of_first_scalar, pop_first_scalar, valid_utf8,
    valid_utf8_split,
};

verus! {

/// A suffix of a text is text by itself exactly if it begins at a character
/// boundary.
pub proof fn lemma_suffix_is_text(bytes: Seq<u8>, start: int)
    requires
        valid_utf8(bytes),
        0 <= start <= bytes.len(),
    ensures
        is_char_boundary(bytes, start) <==> valid_utf8(bytes.subrange(start, bytes.len() as int)),
{
    let rest = bytes.subrange(start, bytes.len() as int);
    if is_char_boundary(bytes, start) {
        valid_utf8_split(bytes, start);
    }
    if valid_utf8(rest) {
        if start == bytes.len() {
            is_char_boundary_start_end_of_seq(bytes);
        } else {
            is_char_boundary_start_end_of_seq(rest);
            is_char_boundary_iff_not_is_continuation_byte(rest, 0);
            is_char_boundary_iff_not_is_continuation_byte(bytes, start);
            assert(rest[0] == bytes[start]);
        }
    }
}

/// A text that begins with another text has a character boundary where the
/// other ends.
pub proof fn lemma_text_prefix_ends_at_boundary(bytes: Seq<u8>, prefix: Seq<u8>)
    requires
        valid_utf8(bytes),
        valid_utf8(prefix),
        occurs_at(bytes, prefix, 0),
    ensures
        is_char_boundary(bytes, prefix.len() as int),
    decreases prefix.len(),
{
    if prefix.len() > 0 {
        let width = length_of_first_scalar(prefix);
        assert(forall|i: int| 0 <= i < prefix.len() ==> bytes[i] == bytes.subrange(
            0,
            prefix.len() as int,
        )[i]);
        assert(width == length_of_first_scalar(bytes));
        assert(1 <= width <= prefix.len());
        let bytes_tail = pop_first_scalar(bytes);
        let prefix_tail = pop_first_scalar(prefix);
        assert(bytes_tail.subrange(0, prefix_tail.len() as int) =~= prefix_tail);
        lemma_text_prefix_ends_at_boundary(bytes_tail, prefix_tail);
        reveal_with_fuel(is_char_boundary, 2);
    }
}

/// A text without its leading slashes is text.
pub proof fn lemma_trimmed_text_is_text(bytes: Seq<u8>)
    requires
        valid_utf8(bytes),
    ensures
        valid_utf8(trim_leading(bytes, SLASH)),
    decreases bytes.len(),
{
    if bytes.len() > 0 && bytes[0] == SLASH {
        assert(pop_first_scalar(bytes) =~= bytes.drop_first());
        lemma_trimmed_text_is_text(bytes.drop_first());
    }
}

/// Where a text holds another text, what follows the first occurrence of
/// the other, with or without its leading slashes, is text.
pub proof fn lemma_text_after_text(bytes: Seq<u8>, inner: Seq<u8>)
    requires
        valid_utf8(bytes),
        valid_utf8(inner),
        first_occurrence(bytes, inner) is Some,
    ensures
        valid_utf8(
            bytes.subrange(first_occurrence(bytes, inner)->0 + inner.len(), bytes.len() as int),
        ),
        valid_utf8(
            trim_leading(
                bytes.subrange(first_occurrence(bytes, inner)->0 + inner.len(), bytes.len() as int),
                SLASH,
            ),
        ),
{
    let at = first_occurrence(bytes, inner)->0;
    lemma_find_from(bytes, inner, 0);
    let rest = bytes.subrange(at + inner.len(), bytes.len() as int);
    if inner.len() == 0 {
        assert(occurs_at(bytes, inner, 0)) by {
            assert(bytes.subrange(0, 0) =~= inner);
        }
        assert(at == 0);
        assert(rest =~= bytes);
    } else {
        let from = bytes.subrange(at, bytes.len() as int);
        assert(bytes[at] == bytes.subrange(at, at + inner.len())[0]);
        is_char_boundary_start_end_of_seq(inner);
        is_char_boundary_iff_not_is_continuation_byte(inner, 0);
        is_char_boundary_iff_not_is_continuation_byte(bytes, at);
        lemma_suffix_is_text(bytes, at);
        assert(from.subrange(0, inner.len() as int) =~= inner);
        lemma_text_prefix_ends_at_boundary(from, inner);
        lemma_suffix_is_text(from, inner.len() as int);
        assert(from.subrange(inner.len() as int, from.len() as int) =~= rest);
    }
    lemma_trimmed_text_is_text(rest);
}

} // verus!
