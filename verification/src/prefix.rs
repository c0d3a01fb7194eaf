//! Prefix tests on strings.
//!
//! A string is compared byte by byte, while contracts speak of its
//! characters. The lemmas here connect the two: one string's characters start
//! another's exactly when its UTF-8 bytes do.

use vstd::prelude::*;
use vstd::string::StringSliceAdditionalSpecFns;
use vstd::utf8::*;

verus! {

/// Encoding a concatenation gives the concatenation of the encodings.
pub proof fn lemma_encode_concat(a: Seq<char>, b: Seq<char>)
    ensures
        encode_utf8(a + b) == encode_utf8(a) + encode_utf8(b),
    decreases a.len(),
{
    if a.len() > 0 {
        lemma_encode_concat(a.drop_first(), b);
        assert((a + b).drop_first() =~= a.drop_first() + b);
    }
}

/// Where one string's characters start another's, so do its bytes.
pub proof fn lemma_prefix_encodes_to_prefix(prefix: Seq<char>, text: Seq<char>)
    requires
        prefix.is_prefix_of(text),
    ensures
        encode_utf8(prefix).is_prefix_of(encode_utf8(text)),
{
    let rest = text.subrange(prefix.len() as int, text.len() as int);
    assert(text =~= prefix + rest);
    lemma_encode_concat(prefix, rest);
}

/// Where one string's bytes start another's, so do its characters.
pub proof fn lemma_encoded_prefix_is_prefix(prefix: Seq<char>, text: Seq<char>)
    requires
        encode_utf8(prefix).is_prefix_of(encode_utf8(text)),
    ensures
        prefix.is_prefix_of(text),
    decreases prefix.len(),
{
    if prefix.len() > 0 {
        let ep = encode_utf8(prefix);
        let et = encode_utf8(text);
        // Both encodings begin with the same bytes, so they begin with the
        // same character, encoded in the same number of bytes.
        encode_utf8_first_scalar(prefix);
        encode_utf8_first_scalar(text);
        char_u32_cast(prefix[0], decode_first_scalar(ep));
        char_u32_cast(text[0], decode_first_scalar(et));
        // What follows that character is again a prefix of what follows it
        // in the text.
        let width = length_of_first_scalar(ep);
        assert(encode_utf8(prefix.drop_first()) =~= ep.subrange(width, ep.len() as int));
        lemma_encoded_prefix_is_prefix(prefix.drop_first(), text.drop_first());
        assert(prefix =~= text.subrange(0, prefix.len() as int)) by {
            assert forall|i: int| 0 <= i < prefix.len() implies prefix[i] == text[i] by {
                if i > 0 {
                    assert(prefix.drop_first()[i - 1] == text.drop_first().subrange(
                        0,
                        prefix.len() - 1,
                    )[i - 1]);
                }
            }
        }
    }
}

/// Whether `text` begins with `prefix`, character for character.
pub fn starts_with(text: &str, prefix: &str) -> (found: bool)
    ensures
        found == prefix@.is_prefix_of(text@),
{
    let t = text.as_bytes();
    let p = prefix.as_bytes();
    if p.len() > t.len() {
        proof {
            if prefix@.is_prefix_of(text@) {
                lemma_prefix_encodes_to_prefix(prefix@, text@);
            }
        }
        return false;
    }
    let mut i: usize = 0;
    while i < p.len()
        invariant
            i <= p.len() <= t.len(),
            p@ == prefix.spec_bytes(),
            t@ == text.spec_bytes(),
            forall|j: int| 0 <= j < i ==> p@[j] == t@[j],
        decreases p.len() - i,
    {
        if p[i] != t[i] {
            proof {
                if prefix@.is_prefix_of(text@) {
                    lemma_prefix_encodes_to_prefix(prefix@, text@);
                }
            }
            return false;
        }
        i += 1;
    }
    proof {
        lemma_encoded_prefix_is_prefix(prefix@, text@);
    }
    true
}

/// Whether two strings hold the same characters.
pub fn same_text(a: &str, b: &str) -> (same: bool)
    ensures
        same == (a@ == b@),
{
    let same = starts_with(a, b) && starts_with(b, a);
    proof {
        // Each is a prefix of the other, so they are equally long.
        if same {
            assert(a@ =~= b@);
        }
    }
    same
}

} // verus!
