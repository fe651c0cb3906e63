//! Text that crosses the engine boundary as UTF-8 bytes.

use vstd::prelude::*;
use vstd::string::StringSliceAdditionalSpecFns;
use vstd::utf8::*;

verus! {

broadcast use vstd::seq::group_seq_axioms;

/// Number of bytes at the front of `bytes` that form well-formed UTF-8,
/// counted scalar by scalar until the first one that is not well formed.
pub open spec fn valid_prefix_len(bytes: Seq<u8>) -> nat
    decreases bytes.len(),
{
    if bytes.len() > 0 && valid_first_scalar(bytes) {
        proof {
            assert(1 <= length_of_first_scalar(bytes) <= bytes.len());
        }
        (length_of_first_scalar(bytes) + valid_prefix_len(pop_first_scalar(bytes))) as nat
    } else {
        0
    }
}

/// The text that a reader of `bytes` sees: the characters of the longest
/// well-formed UTF-8 prefix.
pub open spec fn readable_text(bytes: Seq<u8>) -> Seq<char> {
    decode_utf8(bytes.take(valid_prefix_len(bytes) as int))
}


/// The first scalar of `b` is read from its first few bytes only, so a prefix
/// of `b` that still holds those bytes starts with the same scalar, and a
/// prefix that starts with a well-formed scalar shows that `b` does too.
proof fn lemma_first_scalar_of_prefix(b: Seq<u8>, n: int)
    requires
        0 < n <= b.len(),
    ensures
        valid_first_scalar(b.take(n)) ==> {
            &&& valid_first_scalar(b)
            &&& length_of_first_scalar(b) == length_of_first_scalar(b.take(n))
        },
        valid_first_scalar(b) && length_of_first_scalar(b) <= n ==> {
            &&& valid_first_scalar(b.take(n))
            &&& length_of_first_scalar(b) == length_of_first_scalar(b.take(n))
        },
{
    let a = b.take(n);
    assert(a[0] == b[0]);
    if n > 1 {
        assert(a[1] == b[1]);
    }
    if n > 2 {
        assert(a[2] == b[2]);
    }
    if n > 3 {
        assert(a[3] == b[3]);
    }
}

/// The counted prefix lies within the bytes and is well-formed UTF-8.
pub proof fn lemma_valid_prefix_is_valid(bytes: Seq<u8>)
    ensures
        valid_prefix_len(bytes) <= bytes.len(),
        valid_utf8(bytes.take(valid_prefix_len(bytes) as int)),
    decreases bytes.len(),
{
    let k = valid_prefix_len(bytes) as int;
    if k == 0 {
        assert(bytes.take(0) =~= Seq::<u8>::empty());
    } else {
        let l = length_of_first_scalar(bytes);
        let rest = pop_first_scalar(bytes);
        lemma_valid_prefix_is_valid(rest);
        let k2 = valid_prefix_len(rest) as int;
        let t = bytes.take(k);
        lemma_first_scalar_of_prefix(bytes, k);
        assert(pop_first_scalar(t) =~= rest.take(k2));
    }
}

/// No prefix longer than the counted one is well-formed UTF-8.
pub proof fn lemma_valid_prefix_is_longest(bytes: Seq<u8>, j: int)
    requires
        valid_prefix_len(bytes) < j <= bytes.len(),
    ensures
        !valid_utf8(bytes.take(j)),
    decreases bytes.len(),
{
    let t = bytes.take(j);
    if valid_utf8(t) {
        lemma_first_scalar_of_prefix(bytes, j);
        let l = length_of_first_scalar(bytes);
        let rest = pop_first_scalar(bytes);
        assert(pop_first_scalar(t) =~= rest.take(j - l));
        lemma_valid_prefix_is_longest(rest, j - l);
    }
}

/// Well-formed UTF-8 is counted whole.
pub proof fn lemma_valid_utf8_counted_whole(bytes: Seq<u8>)
    requires
        valid_utf8(bytes),
    ensures
        valid_prefix_len(bytes) == bytes.len(),
    decreases bytes.len(),
{
    if bytes.len() > 0 {
        lemma_valid_utf8_counted_whole(pop_first_scalar(bytes));
    }
}


/// Width in bytes of the well-formed UTF-8 scalar that starts at `bytes[i]`,
/// or 0 when no well-formed scalar starts there.
fn scalar_width_at(bytes: &[u8], i: usize) -> (w: usize)
    requires
        i < bytes@.len(),
    ensures
        valid_first_scalar(bytes@.skip(i as int)) ==> w == length_of_first_scalar(
            bytes@.skip(i as int),
        ),
        !valid_first_scalar(bytes@.skip(i as int)) ==> w == 0,
{
    let ghost s = bytes@.skip(i as int);
    let n = bytes.len() - i;
    let b0 = bytes[i];
    assert(s[0] == b0);
    if b0 <= 0x7f {
        assert((b0 & 0x7f) <= 0x7f) by (bit_vector);
        return 1;
    }
    if b0 < 0xc0 || b0 > 0xf7 {
        return 0;
    }
    if n < 2 {
        return 0;
    }
    let b1 = bytes[i + 1];
    assert(s[1] == b1);
    if b1 < 0x80 || b1 > 0xbf {
        return 0;
    }
    if b0 <= 0xdf {
        let cp: u32 = (((b0 & 0x1F) as u32) << 6) | ((b1 & 0x3f) as u32);
        assert(cp == decode_first_codepoint(s));
        if cp >= 0x80 && !(0xD800 <= cp && cp <= 0xDFFF) {
            return 2;
        } else {
            return 0;
        }
    }
    if n < 3 {
        return 0;
    }
    let b2 = bytes[i + 2];
    assert(s[2] == b2);
    if b2 < 0x80 || b2 > 0xbf {
        return 0;
    }
    if b0 <= 0xef {
        let cp: u32 = (((b0 & 0x0F) as u32) << 12) | (((b1 & 0x3f) as u32) << 6) | ((b2
            & 0x3f) as u32);
        assert(cp == decode_first_codepoint(s));
        if cp >= 0x800 && !(0xD800 <= cp && cp <= 0xDFFF) {
            return 3;
        } else {
            return 0;
        }
    }
    if n < 4 {
        return 0;
    }
    let b3 = bytes[i + 3];
    assert(s[3] == b3);
    if b3 < 0x80 || b3 > 0xbf {
        return 0;
    }
    let cp: u32 = (((b0 & 0x07) as u32) << 18) | (((b1 & 0x3f) as u32) << 12) | (((b2
        & 0x3f) as u32) << 6) | ((b3 & 0x3f) as u32);
    assert(cp == decode_first_codepoint(s));
    if 0x10000 <= cp && cp <= 0x10ffff && !(0xD800 <= cp && cp <= 0xDFFF) {
        4
    } else {
        0
    }
}

/// The number of bytes at the front of `bytes` that are well-formed UTF-8.
pub fn valid_up_to(bytes: &[u8]) -> (k: usize)
    ensures
        k == valid_prefix_len(bytes@),
{
    let mut i: usize = 0;
    assert(bytes@.skip(0) =~= bytes@);
    while i < bytes.len()
        invariant
            i <= bytes@.len(),
            valid_prefix_len(bytes@) == i + valid_prefix_len(bytes@.skip(i as int)),
        decreases bytes@.len() - i,
    {
        let w = scalar_width_at(bytes, i);
        if w == 0 {
            return i;
        }
        proof {
            let s = bytes@.skip(i as int);
            assert(pop_first_scalar(s) =~= bytes@.skip(i + w));
        }
        i = i + w;
    }
    assert(bytes@.skip(i as int).len() == 0);
    i
}


/// Reads well-formed UTF-8 as a string slice, by `std::str::from_utf8`.
///
/// Claimed of the standard library, as its documentation states: the call
/// succeeds exactly when the bytes are valid UTF-8, and the slice it returns
/// consists of those same bytes.
#[verifier::external_body]
pub(crate) fn utf8_str(bytes: &[u8]) -> (r: Option<&str>)
    ensures
        r is Some <==> valid_utf8(bytes@),
        r matches Some(s) ==> s.spec_bytes() == bytes@,
{
    std::str::from_utf8(bytes).ok()
}

/// The characters of the longest well-formed UTF-8 prefix of `bytes`, as a
/// string slice borrowed from `bytes`.
pub fn longest_valid_str(bytes: &[u8]) -> (r: &str)
    ensures
        r@ == readable_text(bytes@),
        r.spec_bytes() == bytes@.take(valid_prefix_len(bytes@) as int),
{
    let k = valid_up_to(bytes);
    proof {
        lemma_valid_prefix_is_valid(bytes@);
    }
    let prefix = vstd::slice::slice_subrange(bytes, 0, k);
    assert(prefix@ =~= bytes@.take(k as int));
    match utf8_str(prefix) {
        Some(t) => {
            proof {
                vstd::utf8::encode_utf8_decode_utf8(t@);
            }
            t
        },
        None => "",
    }
}


/// Text handed to the engine as its UTF-8 encoding reads back unchanged.
pub proof fn lemma_encoded_text_reads_back(chars: Seq<char>)
    ensures
        readable_text(encode_utf8(chars)) == chars,
{
    let bytes = encode_utf8(chars);
    encode_utf8_valid_utf8(chars);
    lemma_valid_utf8_counted_whole(bytes);
    assert(bytes.take(bytes.len() as int) =~= bytes);
    encode_utf8_decode_utf8(chars);
}

/// Well-formed UTF-8 reads as its whole decoding.
pub proof fn lemma_valid_utf8_reads_whole(bytes: Seq<u8>)
    requires
        valid_utf8(bytes),
    ensures
        readable_text(bytes) == decode_utf8(bytes),
{
    lemma_valid_utf8_counted_whole(bytes);
    assert(bytes.take(bytes.len() as int) =~= bytes);
}

/// The encoding of one scalar holds a zero byte exactly when the scalar is zero.
proof fn lemma_scalar_encoding_nul(c: u32)
    requires
        is_scalar(c),
    ensures
        encode_scalar(c).contains(0u8) <==> c == 0,
{
    let e = encode_scalar(c);
    if has_width_1_encoding(c) {
        assert((leading_byte_width_1(c) == 0) <==> c == 0) by (bit_vector)
            requires
                has_width_1_encoding(c),
        ;
        if c == 0 {
            assert(e[0] == 0u8);
        }
    } else {
        assert(last_continuation_byte(c) != 0) by (bit_vector);
        if has_width_2_encoding(c) {
            assert(leading_byte_width_2(c) != 0) by (bit_vector);
            assert(forall|i: int| 0 <= i < e.len() ==> e[i] != 0u8);
        } else if has_width_3_encoding(c) {
            assert(leading_byte_width_3(c) != 0) by (bit_vector);
            assert(second_last_continuation_byte(c) != 0) by (bit_vector);
            assert(forall|i: int| 0 <= i < e.len() ==> e[i] != 0u8);
        } else {
            assert(leading_byte_width_4(c) != 0) by (bit_vector);
            assert(second_last_continuation_byte(c) != 0) by (bit_vector);
            assert(third_last_continuation_byte(c) != 0) by (bit_vector);
            assert(forall|i: int| 0 <= i < e.len() ==> e[i] != 0u8);
        }
    }
}

/// The UTF-8 encoding of a text holds a zero byte exactly when the text holds
/// the NUL character.
pub proof fn lemma_nul_byte_iff_nul_char(chars: Seq<char>)
    ensures
        encode_utf8(chars).contains(0u8) <==> chars.contains('\0'),
    decreases chars.len(),
{
    if chars.len() == 0 {
    } else {
        let c = chars[0];
        let rest = chars.drop_first();
        let head = encode_scalar(c as u32);
        let tail = encode_utf8(rest);
        char_is_scalar(c);
        lemma_scalar_encoding_nul(c as u32);
        lemma_nul_byte_iff_nul_char(rest);
        let all = encode_utf8(chars);
        assert(all == head + tail);
        if all.contains(0u8) {
            let i = choose|i: int| 0 <= i < all.len() && all[i] == 0u8;
            if i < head.len() {
                assert(head[i] == 0u8);
                char_u32_cast(c, 0u32);
                assert(chars[0] == '\0');
            } else {
                assert(tail[i - head.len()] == 0u8);
                let j = choose|j: int| 0 <= j < rest.len() && rest[j] == '\0';
                assert(chars[j + 1] == '\0');
            }
        }
        if chars.contains('\0') {
            let j = choose|j: int| 0 <= j < chars.len() && chars[j] == '\0';
            if j == 0 {
                let k = choose|k: int| 0 <= k < head.len() && head[k] == 0u8;
                assert(all[k] == 0u8);
            } else {
                assert(rest[j - 1] == '\0');
                let k = choose|k: int| 0 <= k < tail.len() && tail[k] == 0u8;
                assert(all[head.len() + k] == 0u8);
            }
        }
    }
}

/// The text that `String::from_utf8_lossy` makes of `bytes`: each malformed
/// part becomes U+FFFD.
pub uninterp spec fn lossy_utf8(bytes: Seq<u8>) -> Seq<char>;

/// Reads bytes as text by `String::from_utf8_lossy`, owning the result.
///
/// Claimed of the standard library: the result depends on the bytes alone
/// (named [`lossy_utf8`]), and well-formed UTF-8 reads as its decoding, as the
/// documentation states. How malformed parts are replaced is left unsaid.
#[verifier::external_body]
pub(crate) fn lossy_string(bytes: &[u8]) -> (r: String)
    ensures
        r@ == lossy_utf8(bytes@),
        valid_utf8(bytes@) ==> r@ == decode_utf8(bytes@),
{
    String::from_utf8_lossy(bytes).into_owned()
}

} // verus!
