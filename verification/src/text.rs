//! Small tools on texts and sequences that the other modules share.

use vstd::prelude::*;
use vstd::string::*;
use vstd::utf8::*;

verus! {

/// The index at which the last stretch of `s` without a stop element
/// begins: just behind the last stop element, or 0 where `s` holds none.
pub open spec fn tail_start<T>(s: Seq<T>, stop: spec_fn(T) -> bool) -> int
    decreases s.len(),
{
    if s.len() == 0 {
        0
    } else if stop(s.last()) {
        s.len() as int
    } else {
        tail_start(s.drop_last(), stop)
    }
}

/// `tail_start` lies within `s`, directly behind a stop element unless it
/// is 0, and no stop element follows it.
pub proof fn lemma_tail_start<T>(s: Seq<T>, stop: spec_fn(T) -> bool)
    ensures
        0 <= tail_start(s, stop) <= s.len(),
        tail_start(s, stop) == 0 || stop(s[tail_start(s, stop) - 1]),
        forall|i: int| tail_start(s, stop) <= i < s.len() ==> !stop(#[trigger] s[i]),
    decreases s.len(),
{
    if s.len() > 0 && !stop(s.last()) {
        let front = s.drop_last();
        lemma_tail_start(front, stop);
        assert forall|i: int| tail_start(s, stop) <= i < s.len() implies !stop(#[trigger] s[i]) by {
            if i < front.len() {
                assert(front[i] == s[i]);
            }
        }
        if tail_start(s, stop) > 0 {
            assert(front[tail_start(s, stop) - 1] == s[tail_start(s, stop) - 1]);
        }
    }
}

/// The only index with the three properties of `lemma_tail_start` is
/// `tail_start` itself.
pub proof fn lemma_tail_start_unique<T>(s: Seq<T>, stop: spec_fn(T) -> bool, p: int)
    requires
        0 <= p <= s.len(),
        p == 0 || stop(s[p - 1]),
        forall|i: int| p <= i < s.len() ==> !stop(#[trigger] s[i]),
    ensures
        tail_start(s, stop) == p,
{
    lemma_tail_start(s, stop);
    let q = tail_start(s, stop);
    if q < p {
        assert(stop(s[p - 1]));
        assert(!stop(s[p - 1]));
    } else if p < q {
        assert(stop(s[q - 1]));
        assert(!stop(s[q - 1]));
    }
}

/// Says whether two texts hold the same characters.
pub fn text_equal(a: &str, b: &str) -> (same: bool)
    ensures
        same == (a@ == b@),
{
    let x = a.as_bytes();
    let y = b.as_bytes();
    if x.len() != y.len() {
        return false;
    }
    let mut i: usize = 0;
    while i < x.len()
        invariant
            i <= x.len(),
            x.len() == y.len(),
            x@.take(i as int) == y@.take(i as int),
            x@ == encode_utf8(a@),
            y@ == encode_utf8(b@),
        decreases x.len() - i,
    {
        if x[i] != y[i] {
            return false;
        }
        assert(x@.take(i + 1) == x@.take(i as int).push(x@[i as int]));
        assert(y@.take(i + 1) == y@.take(i as int).push(y@[i as int]));
        i = i + 1;
    }
    assert(x@ == x@.take(i as int));
    assert(y@ == y@.take(i as int));
    proof {
        encode_utf8_decode_utf8(a@);
        encode_utf8_decode_utf8(b@);
    }
    true
}

/// The text `head` followed by the text `tail`.
pub fn followed_by(head: &str, tail: &str) -> (joined: String)
    ensures
        joined@ == head@ + tail@,
{
    let mut joined = String::from_str(head);
    joined.append(tail);
    joined
}

/// The bytes that encode one character: none of them is below 0x80,
/// unless the character itself is, and then it is its own single byte.
proof fn lemma_scalar_bytes(scalar: u32)
    by (bit_vector)
    ensures
        scalar <= 0x7F ==> (scalar & 0x7F) as u8 as u32 == scalar,
        0xC0u8 | ((scalar >> 6) & 0x1F) as u8 >= 0x80u8,
        0xE0u8 | ((scalar >> 12) & 0x0F) as u8 >= 0x80u8,
        0xF0u8 | ((scalar >> 18) & 0x7) as u8 >= 0x80u8,
        0x80u8 | (scalar & 0x3F) as u8 >= 0x80u8,
        0x80u8 | ((scalar >> 6) & 0x3F) as u8 >= 0x80u8,
        0x80u8 | ((scalar >> 12) & 0x3F) as u8 >= 0x80u8,
{
}

/// A byte below 0x80 stands in the encoding of one character only where
/// the character has that very code.
proof fn lemma_ascii_byte_of_char(c: char, b: u8, i: int)
    requires
        b < 0x80,
        0 <= i < encode_scalar(c as u32).len(),
        encode_scalar(c as u32)[i] == b,
    ensures
        c == b as char,
{
    lemma_scalar_bytes(c as u32);
    char_u32_cast(c, b as u32);
}

/// A text that lacks the character with the code `b`, a code below 0x80,
/// is encoded without the byte `b`.
pub proof fn lemma_ascii_byte_absent(chars: Seq<char>, b: u8)
    requires
        b < 0x80,
        forall|j: int| 0 <= j < chars.len() ==> chars[j] != b as char,
    ensures
        forall|i: int| 0 <= i < encode_utf8(chars).len() ==> encode_utf8(chars)[i] != b,
    decreases chars.len(),
{
    if chars.len() > 0 {
        let first = encode_scalar(chars[0] as u32);
        let rest = chars.drop_first();
        assert forall|j: int| 0 <= j < rest.len() implies rest[j] != b as char by {
            assert(rest[j] == chars[j + 1]);
        }
        lemma_ascii_byte_absent(rest, b);
        assert forall|i: int| 0 <= i < encode_utf8(chars).len() implies encode_utf8(chars)[i]
            != b by {
            if i < first.len() {
                if first[i] == b {
                    lemma_ascii_byte_of_char(chars[0], b, i);
                }
            } else {
                assert(encode_utf8(chars)[i] == encode_utf8(rest)[i - first.len()]);
            }
        }
    }
}

/// The encoding of a text that does not end in the character with the
/// code `b`, a code below 0x80, does not end in the byte `b`.
pub proof fn lemma_ascii_byte_not_last(chars: Seq<char>, b: u8)
    requires
        b < 0x80,
        chars.len() > 0,
        chars.last() != b as char,
    ensures
        encode_utf8(chars).len() > 0,
        encode_utf8(chars).last() != b,
    decreases chars.len(),
{
    let first = encode_scalar(chars[0] as u32);
    let rest = chars.drop_first();
    lemma_scalar_bytes(chars[0] as u32);
    assert(first.len() > 0);
    if rest.len() == 0 {
        assert(encode_utf8(rest) =~= Seq::<u8>::empty());
        assert(encode_utf8(chars) =~= first);
        if first.last() == b {
            lemma_ascii_byte_of_char(chars[0], b, first.len() - 1);
        }
    } else {
        assert(rest.last() == chars.last());
        lemma_ascii_byte_not_last(rest, b);
    }
}

} // verus!
