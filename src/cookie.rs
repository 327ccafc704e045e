use vstd::prelude::*;
use vstd::string::StringSliceAdditionalSpecFns;
use vstd::utf8::{
    encode_utf8, encode_utf8_valid_utf8, is_char_boundary, is_char_boundary_iff_not_is_continuation_byte,
    is_char_boundary_start_end_of_seq, length_of_first_scalar, pop_first_scalar, valid_utf8,
};

use crate::crypto::hex_random_bytes;
use crate::text::{hex_text, is_lower_hex};

verus! {

broadcast use vstd::string::group_string_axioms, vstd::utf8::group_utf8_lib;

/// What a cookie becomes when none is supplied: `NMTID=` and 32 lowercase hex digits, then `;`.
pub open spec fn is_anonymous_cookie(c: Seq<char>) -> bool {
    exists|h: Seq<char>|
        h.len() == 32 && is_lower_hex(h) && c == "NMTID="@ + h + ";"@
}

/// The cookie that goes out: the one supplied when there is one, or else an
/// anonymous marker with 16 random bytes.
pub fn get_cookie_string(cookie: &str) -> (r: String)
    ensures
        cookie@.len() > 0 ==> r@ == cookie@,
        cookie@.len() == 0 ==> is_anonymous_cookie(r@),
{
    if !cookie.is_empty() {
        String::from_str(cookie)
    } else {
        let h = hex_random_bytes(16);
        proof {
            let b = choose|b: Seq<u8>| b.len() == 16 && h@ == hex_text(b, false);
            assert(is_lower_hex(hex_text(b, false)));
        }
        String::from_str("NMTID=").concat(h.as_str()).concat(";")
    }
}

/// The bytes of `_csrf=`.
pub open spec fn csrf_mark() -> Seq<u8> {
    seq![0x5fu8, 0x63, 0x73, 0x72, 0x66, 0x3d]
}

pub open spec fn semicolon() -> u8 {
    0x3bu8
}

/// A CSRF attribute with a non-empty value begins at byte `i`.
pub open spec fn csrf_at(b: Seq<u8>, i: int) -> bool {
    0 <= i && i + 7 <= b.len() && b.subrange(i, i + 6) == csrf_mark() && b[i + 6] != semicolon()
}

/// The first `i >= from` where a CSRF attribute begins, or `b.len()` if none does.
pub open spec fn first_csrf(b: Seq<u8>, from: int) -> int
    decreases b.len() - from,
{
    if from < 0 || from >= b.len() {
        b.len() as int
    } else if csrf_at(b, from) {
        from
    } else {
        first_csrf(b, from + 1)
    }
}

/// The first `j >= from` where a `;` stands, or `b.len()` if none does.
pub open spec fn value_end(b: Seq<u8>, from: int) -> int
    decreases b.len() - from,
{
    if from < 0 || from >= b.len() {
        b.len() as int
    } else if b[from] == semicolon() {
        from
    } else {
        value_end(b, from + 1)
    }
}

/// The CSRF token of a cookie's bytes: the value of its first non-empty `_csrf=`
/// attribute, up to the next `;` or the end, or nothing when there is none.
pub open spec fn csrf_token(b: Seq<u8>) -> Seq<u8> {
    let i = first_csrf(b, 0);
    if i >= b.len() {
        Seq::empty()
    } else {
        b.subrange(i + 6, value_end(b, i + 6))
    }
}

proof fn lemma_first_csrf_bounds(b: Seq<u8>, from: int)
    requires
        0 <= from,
    ensures
        from <= first_csrf(b, from) || first_csrf(b, from) == b.len(),
        first_csrf(b, from) <= b.len(),
        first_csrf(b, from) < b.len() ==> csrf_at(b, first_csrf(b, from)),
    decreases b.len() - from,
{
    if from < b.len() && !csrf_at(b, from) {
        lemma_first_csrf_bounds(b, from + 1);
    }
}

proof fn lemma_value_end_bounds(b: Seq<u8>, from: int)
    requires
        0 <= from <= b.len(),
    ensures
        from <= value_end(b, from) <= b.len(),
        value_end(b, from) < b.len() ==> b[value_end(b, from)] == semicolon(),
    decreases b.len() - from,
{
    if from < b.len() && b[from] != semicolon() {
        lemma_value_end_bounds(b, from + 1);
    }
}

/// In valid UTF-8, the byte after an ASCII byte begins a character.
proof fn lemma_boundary_after_ascii(b: Seq<u8>)
    requires
        valid_utf8(b),
        b.len() >= 1,
        b[0] < 0x80,
    ensures
        is_char_boundary(b, 1),
{
    reveal_with_fuel(is_char_boundary, 2);
    assert(length_of_first_scalar(b) == 1);
    assert(is_char_boundary(pop_first_scalar(b), 0));
}

/// Finds the CSRF token in a cookie: the value of its first non-empty `_csrf=`
/// attribute, up to the next `;` or the end; empty when there is none.
pub fn extract_csrf(cookie: &str) -> (r: String)
    ensures
        encode_utf8(r@) == csrf_token(encode_utf8(cookie@)),
{
    let b = cookie.as_bytes();
    let ghost bs = encode_utf8(cookie@);
    let n = b.len();
    let mut i: usize = 0;
    let mut found = false;
    while i < n && !found
        invariant
            b@ == bs,
            n == bs.len(),
            i <= n,
            found ==> i + 7 <= n && csrf_at(bs, i as int) && first_csrf(bs, 0) == i,
            !found ==> first_csrf(bs, 0) == first_csrf(bs, i as int),
        decreases n - i + (if found { 0int } else { 1int }),
    {
        if n - i >= 7 && b[i] == 0x5f && b[i + 1] == 0x63 && b[i + 2] == 0x73 && b[i + 3] == 0x72
            && b[i + 4] == 0x66 && b[i + 5] == 0x3d && b[i + 6] != 0x3b {
            proof {
                assert(bs.subrange(i as int, i + 6) =~= csrf_mark());
            }
            found = true;
        } else {
            proof {
                if csrf_at(bs, i as int) {
                    assert(bs.subrange(i as int, i + 6)[0] == csrf_mark()[0]);
                    assert(bs.subrange(i as int, i + 6)[1] == csrf_mark()[1]);
                    assert(bs.subrange(i as int, i + 6)[2] == csrf_mark()[2]);
                    assert(bs.subrange(i as int, i + 6)[3] == csrf_mark()[3]);
                    assert(bs.subrange(i as int, i + 6)[4] == csrf_mark()[4]);
                    assert(bs.subrange(i as int, i + 6)[5] == csrf_mark()[5]);
                }
            }
            i = i + 1;
        }
    }
    if !found {
        proof {
            lemma_first_csrf_bounds(bs, 0);
            assert(csrf_token(bs) =~= Seq::<u8>::empty());
        }
        return String::new();
    }
    let start = i + 6;
    let mut j: usize = start;
    while j < n && b[j] != 0x3b
        invariant
            b@ == bs,
            n == bs.len(),
            start <= j <= n,
            value_end(bs, start as int) == value_end(bs, j as int),
        decreases n - j,
    {
        j = j + 1;
    }
    proof {
        lemma_value_end_bounds(bs, start as int);
        encode_utf8_valid_utf8(cookie@);
        is_char_boundary_iff_not_is_continuation_byte(bs, (i + 5) as int);
    }
    let (_, tail) = cookie.split_at(i + 5);
    proof {
        encode_utf8_valid_utf8(tail@);
        lemma_boundary_after_ascii(tail.spec_bytes());
    }
    let (_, value_and_rest) = tail.split_at(1);
    let ghost vb = value_and_rest.spec_bytes();
    proof {
        assert(vb =~= bs.subrange(start as int, n as int));
        encode_utf8_valid_utf8(value_and_rest@);
        if j < n {
            assert(vb[j - start] == 0x3bu8);
            is_char_boundary_iff_not_is_continuation_byte(vb, j - start);
        } else {
            is_char_boundary_start_end_of_seq(vb);
        }
    }
    let (value, _) = value_and_rest.split_at(j - start);
    proof {
        assert(value.spec_bytes() =~= bs.subrange(start as int, j as int));
    }
    String::from_str(value)
}

} // verus!
