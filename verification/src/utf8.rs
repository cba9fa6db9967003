//! Checking bytes for UTF-8: the longest prefix of some bytes that is valid UTF-8
use vstd::prelude::*;
use vstd::utf8::{
    codepoint_width_2, codepoint_width_3, codepoint_width_4, decode_first_codepoint,
    length_of_first_scalar, partial_valid_utf8, partial_valid_utf8_extend, pop_first_scalar,
    valid_first_scalar, valid_utf8,
};

verus! {

/// Whether a byte continues the encoding of a character
fn is_continuation(b: u8) -> (r: bool)
    ensures
        r == vstd::utf8::is_continuation_byte(b),
{
    0x80 <= b && b <= 0xbf
}

/// The number of bytes of the character whose encoding starts at an index, or 0 where no
/// valid encoding of a character starts there
fn first_scalar_len(bytes: &[u8], i: usize) -> (r: usize)
    requires
        i <= bytes@.len(),
    ensures
        r != 0 <==> valid_first_scalar(bytes@.subrange(i as int, bytes@.len() as int)),
        r != 0 ==> r == length_of_first_scalar(bytes@.subrange(i as int, bytes@.len() as int)),
        r <= bytes@.len() - i,
{
    let ghost s = bytes@.subrange(i as int, bytes@.len() as int);
    let n = bytes.len();
    if i >= n {
        return 0;
    }
    let b0 = bytes[i];
    assert(s[0] == b0);
    if b0 <= 0x7f {
        return 1;
    }
    if 0xc0 <= b0 && b0 <= 0xdf {
        if n - i < 2 {
            return 0;
        }
        let b1 = bytes[i + 1];
        assert(s[1] == b1);
        if !is_continuation(b1) {
            return 0;
        }
        let cp: u32 = (((b0 & 0x1f) as u32) << 6) | ((b1 & 0x3f) as u32);
        assert(cp == codepoint_width_2(b0, b1));
        assert(decode_first_codepoint(s) == cp);
        if 0x80 <= cp && !(0xd800 <= cp && cp <= 0xdfff) {
            return 2;
        }
        return 0;
    }
    if 0xe0 <= b0 && b0 <= 0xef {
        if n - i < 3 {
            return 0;
        }
        let b1 = bytes[i + 1];
        let b2 = bytes[i + 2];
        assert(s[1] == b1 && s[2] == b2);
        if !is_continuation(b1) || !is_continuation(b2) {
            return 0;
        }
        let cp: u32 = (((b0 & 0x0f) as u32) << 12) | (((b1 & 0x3f) as u32) << 6) | ((b2
            & 0x3f) as u32);
        assert(cp == codepoint_width_3(b0, b1, b2));
        assert(decode_first_codepoint(s) == cp);
        if 0x800 <= cp && !(0xd800 <= cp && cp <= 0xdfff) {
            return 3;
        }
        return 0;
    }
    if 0xf0 <= b0 && b0 <= 0xf7 {
        if n - i < 4 {
            return 0;
        }
        let b1 = bytes[i + 1];
        let b2 = bytes[i + 2];
        let b3 = bytes[i + 3];
        assert(s[1] == b1 && s[2] == b2 && s[3] == b3);
        if !is_continuation(b1) || !is_continuation(b2) || !is_continuation(b3) {
            return 0;
        }
        let cp: u32 = (((b0 & 0x07) as u32) << 18) | (((b1 & 0x3f) as u32) << 12) | (((b2
            & 0x3f) as u32) << 6) | ((b3 & 0x3f) as u32);
        assert(cp == codepoint_width_4(b0, b1, b2, b3));
        assert(decode_first_codepoint(s) == cp);
        if 0x10000 <= cp && cp <= 0x10ffff && !(0xd800 <= cp && cp <= 0xdfff) {
            return 4;
        }
        return 0;
    }
    0
}

/// A valid encoding of a character at the start of some bytes stays one, of the same length,
/// where more bytes follow
proof fn lemma_first_scalar_extends(t: Seq<u8>, s: Seq<u8>)
    requires
        t.len() <= s.len(),
        forall|k: int| 0 <= k < t.len() ==> #[trigger] t[k] == s[k],
        valid_first_scalar(t),
    ensures
        valid_first_scalar(s),
        length_of_first_scalar(s) == length_of_first_scalar(t),
{
    assert(t[0] == s[0]);
    if t.len() >= 2 {
        assert(t[1] == s[1]);
    }
    if t.len() >= 3 {
        assert(t[2] == s[2]);
    }
    if t.len() >= 4 {
        assert(t[3] == s[3]);
    }
}

/// Where some bytes and those bytes followed by more are both valid UTF-8, so are the bytes that
/// follow
proof fn lemma_valid_utf8_suffix(x: Seq<u8>, y: Seq<u8>)
    requires
        valid_utf8(x),
        valid_utf8(x + y),
    ensures
        valid_utf8(y),
    decreases x.len(),
{
    if x.len() == 0 {
        assert(x + y =~= y);
    } else {
        lemma_first_scalar_extends(x, x + y);
        let l = length_of_first_scalar(x);
        assert(pop_first_scalar(x + y) =~= pop_first_scalar(x) + y);
        assert(pop_first_scalar(x).len() == x.len() - l);
        lemma_valid_utf8_suffix(pop_first_scalar(x), y);
    }
}

/// Once no valid encoding of a character starts right after a valid prefix, no longer prefix
/// is valid
proof fn lemma_no_longer_valid_prefix(bytes: Seq<u8>, p: int, j: int)
    requires
        0 <= p < j <= bytes.len(),
        valid_utf8(bytes.take(p)),
        !valid_first_scalar(bytes.subrange(p, bytes.len() as int)),
    ensures
        !valid_utf8(bytes.take(j)),
{
    let x = bytes.take(p);
    let y = bytes.subrange(p, j);
    let z = bytes.subrange(p, bytes.len() as int);
    assert(bytes.take(j) =~= x + y);
    if valid_utf8(bytes.take(j)) {
        lemma_valid_utf8_suffix(x, y);
        assert(valid_first_scalar(y));
        assert forall|k: int| 0 <= k < y.len() implies #[trigger] y[k] == z[k] by {}
        lemma_first_scalar_extends(y, z);
    }
}

/// The length of the longest prefix of some bytes that is valid UTF-8: the bytes are read
/// character by character until no valid encoding of a character starts
pub fn valid_utf8_prefix(bytes: &[u8]) -> (r: usize)
    ensures
        r <= bytes@.len(),
        valid_utf8(bytes@.take(r as int)),
        forall|j: int| r < j <= bytes@.len() ==> !valid_utf8(#[trigger] bytes@.take(j)),
{
    let n = bytes.len();
    let mut i: usize = 0;
    assert(bytes@.take(0) =~= Seq::<u8>::empty());
    loop
        invariant
            n == bytes@.len(),
            i <= n,
            valid_utf8(bytes@.take(i as int)),
        decreases bytes@.len() - i,
    {
        let l = first_scalar_len(bytes, i);
        if l == 0 {
            proof {
                assert forall|j: int| i < j <= bytes@.len() implies !valid_utf8(
                    #[trigger] bytes@.take(j),
                ) by {
                    lemma_no_longer_valid_prefix(bytes@, i as int, j);
                }
            }
            return i;
        }
        proof {
            assert(partial_valid_utf8(bytes@, i as int));
            partial_valid_utf8_extend(bytes@, i as int);
        }
        i = i + l;
    }
}

/// Check whether some bytes are valid UTF-8
pub fn is_valid_utf8(bytes: &[u8]) -> (r: bool)
    ensures
        r == valid_utf8(bytes@),
{
    let n = valid_utf8_prefix(bytes);
    assert(bytes@.take(bytes@.len() as int) =~= bytes@);
    n == bytes.len()
}

} // verus!
