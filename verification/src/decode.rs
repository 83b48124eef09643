//! Lossy decoding of bytes into text: what is valid UTF-8 is kept, and every
//! invalid sequence gives way to the replacement character.

use vstd::prelude::*;
use vstd::utf8::*;

verus! {

/// The character that stands in for an invalid byte sequence.
pub open spec fn replacement_char() -> char {
    '\u{FFFD}'
}

/// The text that `String::from_utf8_lossy` makes of a byte sequence.
pub uninterp spec fn lossy_text(bytes: Seq<u8>) -> Seq<char>;

/// The length of the longest prefix of `bytes` that is valid UTF-8: the
/// place of the first invalid sequence, or the length of `bytes` where there
/// is none.
pub open spec fn valid_prefix_len(bytes: Seq<u8>) -> int
    decreases bytes.len(),
{
    if bytes.len() > 0 && valid_first_scalar(bytes) {
        length_of_first_scalar(bytes) + valid_prefix_len(pop_first_scalar(bytes))
    } else {
        0
    }
}

/// The text of the longest valid prefix of `bytes`.
pub open spec fn valid_prefix_text(bytes: Seq<u8>) -> Seq<char> {
    decode_utf8(bytes.subrange(0, valid_prefix_len(bytes)))
}

/// Whether `text` begins with the text of the longest valid prefix of
/// `bytes` and has the replacement character right after it.
pub open spec fn marked_at_first_invalid(bytes: Seq<u8>, text: Seq<char>) -> bool {
    let kept = valid_prefix_text(bytes);
    &&& kept.len() < text.len()
    &&& text.subrange(0, kept.len() as int) == kept
    &&& text[kept.len() as int] == replacement_char()
}

/// What holds of the lossy text of a byte sequence: valid UTF-8 is decoded
/// as it stands, and anything else carries the replacement character where
/// its first invalid sequence begins.
pub open spec fn lossy_text_fits(bytes: Seq<u8>) -> bool {
    &&& valid_utf8(bytes) ==> lossy_text(bytes) == decode_utf8(bytes)
    &&& !valid_utf8(bytes) ==> marked_at_first_invalid(bytes, lossy_text(bytes))
}

/// Calls `String::from_utf8_lossy` and takes the text out of the `Cow` that
/// it returns. The text depends on the bytes alone. Of the text, the
/// contract claims what the documentation of that function says: bytes that
/// are valid UTF-8 come out as the string they encode, and an invalid
/// sequence is replaced by U+FFFD, so that the text before the first such
/// sequence is kept and U+FFFD follows it.
#[verifier::external_body]
pub(crate) fn decode_lossy(bytes: &[u8]) -> (text: String)
    ensures
        text@ == lossy_text(bytes@),
        valid_utf8(bytes@) ==> text@ == decode_utf8(bytes@),
        !valid_utf8(bytes@) ==> marked_at_first_invalid(bytes@, text@),
{
    String::from_utf8_lossy(bytes).into_owned()
}

/// The longest valid prefix is a prefix, it is valid, and it is all of the
/// bytes exactly when the bytes are valid as a whole. Where it is not, no
/// scalar value is encoded at its end.
pub proof fn lemma_valid_prefix(bytes: Seq<u8>)
    ensures
        0 <= valid_prefix_len(bytes) <= bytes.len(),
        valid_utf8(bytes.subrange(0, valid_prefix_len(bytes))),
        valid_utf8(bytes) <==> valid_prefix_len(bytes) == bytes.len(),
        valid_prefix_len(bytes) < bytes.len() ==> !valid_first_scalar(
            bytes.subrange(valid_prefix_len(bytes), bytes.len() as int),
        ),
    decreases bytes.len(),
{
    if bytes.len() > 0 && valid_first_scalar(bytes) {
        let first = length_of_first_scalar(bytes);
        let rest = pop_first_scalar(bytes);
        let k = valid_prefix_len(rest);
        lemma_valid_prefix(rest);
        let head = bytes.subrange(0, first + k);
        assert(valid_first_scalar(head)) by {
            assert(forall|i: int| 0 <= i < first ==> head[i] == bytes[i]);
        }
        assert(length_of_first_scalar(head) == first);
        assert(pop_first_scalar(head) =~= rest.subrange(0, k));
        assert(bytes.subrange(first + k, bytes.len() as int) =~= rest.subrange(
            k,
            rest.len() as int,
        ));
    } else {
        assert(bytes.subrange(0, 0) =~= Seq::<u8>::empty());
        assert(bytes.subrange(0, bytes.len() as int) =~= bytes);
    }
}

} // verus!
