//! Comparisons on string slices, carried out on their UTF-8 bytes.

use vstd::prelude::*;
use vstd::utf8::*;

verus! {

/// Encoding distributes over concatenation.
pub proof fn lemma_encode_concat(a: Seq<char>, b: Seq<char>)
    ensures
        encode_utf8(a + b) == encode_utf8(a) + encode_utf8(b),
    decreases a.len(),
{
    if a.len() == 0 {
        assert(a + b =~= b);
        assert(encode_utf8(a) + encode_utf8(b) =~= encode_utf8(b));
    } else {
        lemma_encode_concat(a.drop_first(), b);
        assert((a + b).drop_first() =~= a.drop_first() + b);
        assert((a + b)[0] == a[0]);
        assert(encode_utf8(a + b) =~= encode_utf8(a) + encode_utf8(b));
    }
}

/// Two texts are equal exactly when their encodings are.
pub proof fn lemma_encode_injective(a: Seq<char>, b: Seq<char>)
    ensures
        (a == b) <==> (encode_utf8(a) == encode_utf8(b)),
{
    encode_utf8_decode_utf8(a);
    encode_utf8_decode_utf8(b);
}

/// A text ends with `suffix` exactly when its encoding ends with the
/// encoding of `suffix`.
pub proof fn lemma_suffix_of_encoding(suffix: Seq<char>, text: Seq<char>)
    ensures
        suffix.is_suffix_of(text) <==> encode_utf8(suffix).is_suffix_of(encode_utf8(text)),
{
    let bytes = encode_utf8(text);
    let tail = encode_utf8(suffix);
    encode_utf8_valid_utf8(text);
    encode_utf8_valid_utf8(suffix);
    if suffix.is_suffix_of(text) {
        let cut = text.len() - suffix.len();
        let head = text.subrange(0, cut);
        assert(text =~= head + suffix);
        lemma_encode_concat(head, suffix);
        assert(tail =~= bytes.subrange(bytes.len() - tail.len(), bytes.len() as int));
    }
    if tail.is_suffix_of(bytes) {
        let cut = bytes.len() - tail.len();
        assert(is_char_boundary(bytes, cut)) by {
            if tail.len() == 0 {
                is_char_boundary_start_end_of_seq(bytes);
            } else {
                is_char_boundary_start_end_of_seq(tail);
                is_char_boundary_iff_not_is_continuation_byte(tail, 0);
                assert(bytes[cut] == tail[0]);
                is_char_boundary_iff_not_is_continuation_byte(bytes, cut);
            }
        }
        decode_utf8_split(bytes, cut);
        encode_utf8_decode_utf8(text);
        encode_utf8_decode_utf8(suffix);
        let head = decode_utf8(bytes.subrange(0, cut));
        assert(bytes.subrange(cut, bytes.len() as int) =~= tail);
        assert(text =~= head + suffix);
        assert(suffix =~= text.subrange(text.len() - suffix.len(), text.len() as int));
    }
}

/// Whether `bytes[start..]` holds exactly the bytes of `other`.
fn tail_matches(bytes: &[u8], start: usize, other: &[u8]) -> (same: bool)
    requires
        start + other@.len() == bytes@.len(),
    ensures
        same == (bytes@.subrange(start as int, bytes@.len() as int) == other@),
{
    let ghost tail = bytes@.subrange(start as int, bytes@.len() as int);
    let len: usize = other.len();
    assert(start + len == bytes.len());
    let mut i: usize = 0;
    while i < len
        invariant
            i <= len,
            len == other@.len(),
            start + len == bytes@.len() <= usize::MAX,
            tail == bytes@.subrange(start as int, bytes@.len() as int),
            forall|j: int| 0 <= j < i ==> tail[j] == other@[j],
        decreases len - i,
    {
        if bytes[start + i] != other[i] {
            assert(tail[i as int] != other@[i as int]);
            return false;
        }
        i += 1;
    }
    assert(tail =~= other@);
    true
}

/// Whether two string slices hold the same text.
pub fn str_eq(a: &str, b: &str) -> (equal: bool)
    ensures
        equal == (a@ == b@),
{
    let x = a.as_bytes();
    let y = b.as_bytes();
    proof {
        lemma_encode_injective(a@, b@);
    }
    if x.len() != y.len() {
        return false;
    }
    assert(x@.subrange(0, x@.len() as int) =~= x@);
    tail_matches(x, 0, y)
}

/// Whether `text` ends with `suffix`.
pub fn str_ends_with(text: &str, suffix: &str) -> (ends: bool)
    ensures
        ends == suffix@.is_suffix_of(text@),
{
    let x = text.as_bytes();
    let y = suffix.as_bytes();
    proof {
        lemma_suffix_of_encoding(suffix@, text@);
    }
    if y.len() > x.len() {
        return false;
    }
    tail_matches(x, x.len() - y.len(), y)
}

} // verus!
