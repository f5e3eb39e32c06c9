//! Text on its way to and from the X libraries, which take and give bytes.
use vstd::prelude::*;
use vstd::string::*;
use vstd::utf8::*;

use crate::protocol::TEXT_CAPACITY;

verus! {

/// Whether `s` can be handed over as a string of C: it holds no NUL, which would end it early.
pub open spec fn is_c_str_spec(s: Seq<char>) -> bool {
    !s.contains('\0')
}

/// `s` as a string of C: its UTF-8 bytes, and a zero byte behind them.
pub open spec fn c_bytes(s: Seq<char>) -> Seq<u8> {
    encode_utf8(s).push(0u8)
}

/// The text that the first `count` bytes of `buffer` hold: none where they are not UTF-8.
pub open spec fn committed_text(buffer: Seq<u8>, count: int) -> Seq<char> {
    let written = buffer.take(count);
    if valid_utf8(written) {
        decode_utf8(written)
    } else {
        Seq::empty()
    }
}

/// A character's UTF-8 bytes hold a zero exactly where the character is NUL.
proof fn lemma_encode_scalar_zero(c: char)
    ensures
        encode_scalar(c as u32).contains(0u8) <==> c == '\0',
{
    let v = c as u32;
    char_is_scalar(c);
    let bytes = encode_scalar(v);
    if has_width_1_encoding(v) {
        assert(leading_byte_width_1(v) == 0 <==> v == 0) by (bit_vector)
            requires
                has_width_1_encoding(v),
        ;
        assert(bytes[0] == leading_byte_width_1(v));
        assert(bytes.contains(0u8) ==> bytes[0] == 0u8);
    } else {
        assert(leading_byte_width_2(v) != 0 && leading_byte_width_3(v) != 0
            && leading_byte_width_4(v) != 0 && last_continuation_byte(v) != 0
            && second_last_continuation_byte(v) != 0 && third_last_continuation_byte(v) != 0)
            by (bit_vector);
        assert forall|i: int| 0 <= i < bytes.len() implies bytes[i] != 0u8 by {}
    }
}

/// The UTF-8 bytes of a text hold a zero exactly where the text holds NUL.
proof fn lemma_encode_utf8_zero(s: Seq<char>)
    ensures
        encode_utf8(s).contains(0u8) <==> s.contains('\0'),
    decreases s.len(),
{
    if s.len() > 0 {
        let first = encode_scalar(s[0] as u32);
        let rest = encode_utf8(s.drop_first());
        let all = encode_utf8(s);
        lemma_encode_scalar_zero(s[0]);
        lemma_encode_utf8_zero(s.drop_first());
        assert(all == first + rest);
        if all.contains(0u8) {
            let i = choose|i: int| 0 <= i < all.len() && all[i] == 0u8;
            if i < first.len() {
                assert(first[i] == 0u8);
                assert(s[0] == '\0');
            } else {
                assert(rest[i - first.len()] == 0u8);
                let j = choose|j: int| 0 <= j < s.drop_first().len() && s.drop_first()[j] == '\0';
                assert(s[j + 1] == '\0');
            }
        }
        if s.contains('\0') {
            let i = choose|i: int| 0 <= i < s.len() && s[i] == '\0';
            if i == 0 {
                let j = choose|j: int| 0 <= j < first.len() && first[j] == 0u8;
                assert(all[j] == 0u8);
            } else {
                assert(s.drop_first()[i - 1] == '\0');
                let j = choose|j: int| 0 <= j < rest.len() && rest[j] == 0u8;
                assert(all[first.len() + j] == 0u8);
            }
        }
    }
}

/// A string of C is read back whole: its first zero byte is its last byte, and the bytes
/// before it are the text.
pub proof fn law_c_bytes_reads_back(s: Seq<char>)
    requires
        is_c_str_spec(s),
    ensures
        c_bytes(s).last() == 0u8,
        forall|i: int| 0 <= i < c_bytes(s).len() - 1 ==> c_bytes(s)[i] != 0u8,
        decode_utf8(c_bytes(s).drop_last()) == s,
{
    lemma_encode_utf8_zero(s);
    encode_utf8_decode_utf8(s);
    let bytes = c_bytes(s);
    assert(bytes.drop_last() =~= encode_utf8(s));
    assert forall|i: int| 0 <= i < bytes.len() - 1 implies bytes[i] != 0u8 by {
        assert(encode_utf8(s)[i] == bytes[i]);
    }
}

/// Whether `s` holds no NUL.
pub fn is_c_str(s: &str) -> (r: bool)
    ensures
        r == is_c_str_spec(s@),
{
    let bytes = s.as_bytes();
    let mut i: usize = 0;
    proof {
        lemma_encode_utf8_zero(s@);
    }
    while i < bytes.len()
        invariant
            0 <= i <= bytes@.len(),
            forall|j: int| 0 <= j < i ==> bytes@[j] != 0u8,
            bytes@ == encode_utf8(s@),
            encode_utf8(s@).contains(0u8) <==> s@.contains('\0'),
        decreases bytes.len() - i,
    {
        if bytes[i] == 0 {
            assert(bytes@[i as int] == 0u8);
            return false;
        }
        i = i + 1;
    }
    true
}

/// `s` as a string of C. A text that holds NUL has no such form.
pub fn c_string(s: &str) -> (r: Vec<u8>)
    requires
        is_c_str_spec(s@),
    ensures
        r@ == c_bytes(s@),
{
    let bytes = s.as_bytes();
    let mut r: Vec<u8> = Vec::new();
    let mut i: usize = 0;
    while i < bytes.len()
        invariant
            0 <= i <= bytes@.len(),
            r@ == bytes@.take(i as int),
        decreases bytes.len() - i,
    {
        r.push(bytes[i]);
        i = i + 1;
        assert(r@ =~= bytes@.take(i as int));
    }
    assert(r@ =~= bytes@);
    r.push(0u8);
    r
}

/// `std::str::from_utf8`: gives the text whose UTF-8 encoding `bytes` is, and fails
/// exactly where `bytes` is no UTF-8. What the error tells is dropped.
#[verifier::external_body]
fn utf8_str(bytes: &[u8]) -> (r: Option<&str>)
    ensures
        match r {
            Some(s) => valid_utf8(bytes@) && s.spec_bytes() == bytes@,
            None => !valid_utf8(bytes@),
        },
{
    match std::str::from_utf8(bytes) {
        Ok(s) => Some(s),
        Err(_) => None,
    }
}

/// The text that a key event committed, from the first `count` bytes of `buffer`.
pub fn text_of(buffer: &[u8; 16], count: i32) -> (r: String)
    requires
        0 <= count <= TEXT_CAPACITY,
    ensures
        r@ == committed_text(buffer@, count as int),
{
    let bytes: &[u8] = buffer.as_slice();
    let written = vstd::slice::slice_subrange(bytes, 0, count as usize);
    assert(written@ =~= buffer@.take(count as int));
    match utf8_str(written) {
        Some(s) => {
            proof {
                encode_utf8_decode_utf8(s@);
            }
            s.to_owned()
        },
        None => {
            let none = String::new();
            assert(none@ =~= committed_text(buffer@, count as int));
            none
        },
    }
}

} // verus!
