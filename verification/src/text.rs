//! A prefix test on string slices, decided on their bytes.
use vstd::prelude::*;
use vstd::string::StringSliceAdditionalSpecFns;
use vstd::utf8::{
    char_is_scalar, char_u32_cast, encode_scalar, encode_utf8, encode_utf8_first_scalar,
};

verus! {

/// One sequence of characters is a prefix of another exactly when its UTF-8 encoding is a
/// prefix of the other's encoding.
pub proof fn lemma_prefix_of_encoding(prefix: Seq<char>, text: Seq<char>)
    ensures
        prefix.is_prefix_of(text) <==> encode_utf8(prefix).is_prefix_of(encode_utf8(text)),
    decreases prefix.len(),
{
    if prefix.len() > 0 && text.len() > 0 {
        let prefix_bytes = encode_utf8(prefix);
        let text_bytes = encode_utf8(text);
        let head = encode_scalar(prefix[0] as u32);
        let prefix_rest = prefix.drop_first();
        let text_rest = text.drop_first();
        char_is_scalar(prefix[0]);
        char_is_scalar(text[0]);
        lemma_prefix_of_encoding(prefix_rest, text_rest);
        if prefix_bytes.is_prefix_of(text_bytes) {
            // The first character of both is decoded from the same bytes.
            encode_utf8_first_scalar(prefix);
            encode_utf8_first_scalar(text);
            assert forall|i: int| 0 <= i < head.len() implies prefix_bytes[i] == text_bytes[i] by {
                assert(prefix_bytes[i] == text_bytes.subrange(0, prefix_bytes.len() as int)[i]);
            }
            char_u32_cast(prefix[0], prefix[0] as u32);
            char_u32_cast(text[0], text[0] as u32);
            assert(prefix[0] == text[0]);
            // What follows it is a prefix again.
            let tail = encode_utf8(prefix_rest);
            let text_tail = encode_utf8(text_rest);
            assert forall|i: int| 0 <= i < tail.len() implies tail[i] == text_tail[i] by {
                assert(prefix_bytes[head.len() + i] == tail[i]);
                assert(text_bytes[head.len() + i] == text_tail[i]);
            }
            assert(tail.is_prefix_of(text_tail));
            assert forall|i: int| 0 <= i < prefix.len() implies prefix[i] == text[i] by {
                if i > 0 {
                    assert(prefix_rest[i - 1] == text_rest.subrange(
                        0,
                        prefix_rest.len() as int,
                    )[i - 1]);
                }
            }
            assert(prefix.is_prefix_of(text));
        }
    } else if prefix.len() > 0 {
        char_is_scalar(prefix[0]);
    }
}

/// Whether `text` starts with `prefix`.
pub fn starts_with(text: &str, prefix: &str) -> (found: bool)
    ensures
        found == prefix@.is_prefix_of(text@),
{
    let text_bytes = text.as_bytes();
    let prefix_bytes = prefix.as_bytes();
    proof {
        lemma_prefix_of_encoding(prefix@, text@);
    }
    if prefix_bytes.len() > text_bytes.len() {
        return false;
    }
    let mut i: usize = 0;
    while i < prefix_bytes.len()
        invariant
            i <= prefix_bytes.len() <= text_bytes.len(),
            prefix@.is_prefix_of(text@) <==> prefix_bytes@.is_prefix_of(text_bytes@),
            forall|k: int| 0 <= k < i ==> prefix_bytes@[k] == text_bytes@[k],
        decreases prefix_bytes.len() - i,
    {
        if prefix_bytes[i] != text_bytes[i] {
            assert(!prefix_bytes@.is_prefix_of(text_bytes@)) by {
                if prefix_bytes@.is_prefix_of(text_bytes@) {
                    assert(prefix_bytes@[i as int] == text_bytes@.subrange(
                        0,
                        prefix_bytes@.len() as int,
                    )[i as int]);
                }
            }
            return false;
        }
        i += 1;
    }
    true
}

} // verus!
