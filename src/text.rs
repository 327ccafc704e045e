use vstd::prelude::*;
use vstd::string::StringSliceAdditionalSpecFns;
use vstd::utf8::{
    encode_utf8, encode_utf8_decode_utf8, encode_utf8_valid_utf8, is_ascii_chars,
    is_ascii_chars_encode_utf8, is_char_boundary, is_char_boundary_iff_not_is_continuation_byte,
};

verus! {

broadcast use vstd::string::group_string_axioms;

/// One hexadecimal digit for a nibble `n` (0..16), in lower or upper case.
pub open spec fn hex_digit(n: int, upper: bool) -> char {
    if n == 0 { '0' }
    else if n == 1 { '1' }
    else if n == 2 { '2' }
    else if n == 3 { '3' }
    else if n == 4 { '4' }
    else if n == 5 { '5' }
    else if n == 6 { '6' }
    else if n == 7 { '7' }
    else if n == 8 { '8' }
    else if n == 9 { '9' }
    else if n == 10 { if upper { 'A' } else { 'a' } }
    else if n == 11 { if upper { 'B' } else { 'b' } }
    else if n == 12 { if upper { 'C' } else { 'c' } }
    else if n == 13 { if upper { 'D' } else { 'd' } }
    else if n == 14 { if upper { 'E' } else { 'e' } }
    else if upper { 'F' } else { 'f' }
}

/// Two hexadecimal digits per byte, high nibble first.
pub open spec fn hex_text(b: Seq<u8>, upper: bool) -> Seq<char> {
    Seq::new(
        2 * b.len(),
        |i: int|
            if i % 2 == 0 {
                hex_digit(b[i / 2] as int / 16, upper)
            } else {
                hex_digit(b[i / 2] as int % 16, upper)
            },
    )
}

/// Every character is a lowercase hexadecimal digit.
pub open spec fn is_lower_hex(s: Seq<char>) -> bool {
    forall|i: int| 0 <= i < s.len() ==> (('0' <= #[trigger] s[i] && s[i] <= '9') || ('a' <= s[i] && s[i] <= 'f'))
}

/// Every character is an uppercase hexadecimal digit.
pub open spec fn is_upper_hex(s: Seq<char>) -> bool {
    forall|i: int| 0 <= i < s.len() ==> (('0' <= #[trigger] s[i] && s[i] <= '9') || ('A' <= s[i] && s[i] <= 'F'))
}

pub open spec fn is_ascii_text(s: Seq<char>) -> bool {
    forall|i: int| 0 <= i < s.len() ==> '\0' <= #[trigger] s[i] <= '\u{7f}'
}

/// A sequence of string pairs, seen as pairs of character sequences.
pub open spec fn text_pairs(v: Seq<(String, String)>) -> Seq<(Seq<char>, Seq<char>)> {
    v.map_values(|p: (String, String)| (p.0@, p.1@))
}

/// Some pair has key `k`.
pub open spec fn has_key(ps: Seq<(Seq<char>, Seq<char>)>, k: Seq<char>) -> bool {
    exists|i: int| 0 <= i < ps.len() && (#[trigger] ps[i]).0 == k
}

/// A pair with its value replaced by `v` where its key is `k`.
pub open spec fn with_value(e: (Seq<char>, Seq<char>), k: Seq<char>, v: Seq<char>) -> (Seq<char>, Seq<char>) {
    if e.0 == k {
        (e.0, v)
    } else {
        e
    }
}

/// Sets `k` to `v` the way an insertion-ordered map does: a present key keeps
/// its place and takes the new value; a new key goes last.
pub open spec fn insert_pair(
    ps: Seq<(Seq<char>, Seq<char>)>,
    k: Seq<char>,
    v: Seq<char>,
) -> Seq<(Seq<char>, Seq<char>)> {
    if has_key(ps, k) {
        ps.map_values(|e: (Seq<char>, Seq<char>)| with_value(e, k, v))
    } else {
        ps.push((k, v))
    }
}

/// No two pairs share a key.
pub open spec fn distinct_keys(ps: Seq<(Seq<char>, Seq<char>)>) -> bool {
    forall|i: int, j: int| 0 <= i < ps.len() && 0 <= j < ps.len() && i != j ==> (#[trigger] ps[i]).0 != (#[trigger] ps[j]).0
}

/// The parameter set that pairs make: each inserted in turn, so a repeated key
/// keeps its first place and takes its last value.
pub open spec fn param_map(ps: Seq<(Seq<char>, Seq<char>)>) -> Seq<(Seq<char>, Seq<char>)>
    decreases ps.len(),
{
    if ps.len() == 0 {
        Seq::empty()
    } else {
        insert_pair(param_map(ps.drop_last()), ps.last().0, ps.last().1)
    }
}

pub proof fn lemma_insert_pair_distinct(ps: Seq<(Seq<char>, Seq<char>)>, k: Seq<char>, v: Seq<char>)
    requires
        distinct_keys(ps),
    ensures
        distinct_keys(insert_pair(ps, k, v)),
{
    let r = insert_pair(ps, k, v);
    if has_key(ps, k) {
        assert forall|i: int| 0 <= i < r.len() implies #[trigger] r[i].0 == ps[i].0 by {}
    } else {
        assert forall|i: int, j: int| 0 <= i < r.len() && 0 <= j < r.len() && i != j implies (#[trigger] r[i]).0
            != (#[trigger] r[j]).0 by {
            if i < ps.len() && j < ps.len() {
                assert(r[i] == ps[i] && r[j] == ps[j]);
            } else if i < ps.len() {
                assert(r[i] == ps[i]);
                assert(ps[i].0 != k);
            } else {
                assert(r[j] == ps[j]);
                assert(ps[j].0 != k);
            }
        }
    }
}

/// A parameter set never holds a key twice.
pub proof fn lemma_param_map_distinct(ps: Seq<(Seq<char>, Seq<char>)>)
    ensures
        distinct_keys(param_map(ps)),
    decreases ps.len(),
{
    if ps.len() > 0 {
        lemma_param_map_distinct(ps.drop_last());
        lemma_insert_pair_distinct(param_map(ps.drop_last()), ps.last().0, ps.last().1);
    }
}

pub open spec fn pairs_are_ascii(ps: Seq<(Seq<char>, Seq<char>)>) -> bool {
    forall|i: int| 0 <= i < ps.len() ==> is_ascii_text(#[trigger] ps[i].0) && is_ascii_text(ps[i].1)
}

/// A character as it stands inside a JSON string: `"` and `\` escaped, the
/// control characters below U+0020 as `\b`, `\t`, `\n`, `\f`, `\r` or `\u00xx`
/// (lowercase hex); any other character as it is.
pub open spec fn json_escape_char(c: char) -> Seq<char> {
    if c == '"' {
        seq!['\\', '"']
    } else if c == '\\' {
        seq!['\\', '\\']
    } else if c == '\u{8}' {
        seq!['\\', 'b']
    } else if c == '\t' {
        seq!['\\', 't']
    } else if c == '\n' {
        seq!['\\', 'n']
    } else if c == '\u{c}' {
        seq!['\\', 'f']
    } else if c == '\r' {
        seq!['\\', 'r']
    } else if (c as u32) < 0x20 {
        seq!['\\', 'u', '0', '0', hex_digit(c as u32 as int / 16, false), hex_digit(c as u32 as int % 16, false)]
    } else {
        seq![c]
    }
}

pub open spec fn json_escape_text(s: Seq<char>) -> Seq<char>
    decreases s.len(),
{
    if s.len() == 0 {
        Seq::empty()
    } else {
        json_escape_text(s.drop_last()) + json_escape_char(s.last())
    }
}

/// A JSON string literal: the escaped text between double quotes.
pub open spec fn json_string(s: Seq<char>) -> Seq<char> {
    seq!['"'] + json_escape_text(s) + seq!['"']
}

/// A JSON member `"key":"value"`, both escaped.
pub open spec fn json_member(p: (Seq<char>, Seq<char>)) -> Seq<char> {
    json_string(p.0) + seq![':'] + json_string(p.1)
}

pub open spec fn json_members(ps: Seq<(Seq<char>, Seq<char>)>) -> Seq<char>
    decreases ps.len(),
{
    if ps.len() == 0 {
        Seq::empty()
    } else if ps.len() == 1 {
        json_member(ps[0])
    } else {
        json_members(ps.drop_last()) + seq![','] + json_member(ps.last())
    }
}

/// A flat JSON object of string members, in the order of the pairs.
pub open spec fn json_object(ps: Seq<(Seq<char>, Seq<char>)>) -> Seq<char> {
    seq!['{'] + json_members(ps) + seq!['}']
}

/// Characters that form encoding keeps as they are.
pub open spec fn is_unreserved(c: char) -> bool {
    ('0' <= c && c <= '9') || ('a' <= c && c <= 'z') || ('A' <= c && c <= 'Z') || c == '*'
        || c == '-' || c == '.' || c == '_' || c == '\'' || c == '~' || c == '!' || c == '('
        || c == ')'
}

/// An ASCII character as it stands in form encoding: itself, or `%` and two uppercase digits.
pub open spec fn escape_char(c: char) -> Seq<char> {
    if is_unreserved(c) {
        seq![c]
    } else {
        seq!['%', hex_digit(c as u32 as int / 16, true), hex_digit(c as u32 as int % 16, true)]
    }
}

pub open spec fn escape_text(s: Seq<char>) -> Seq<char>
    decreases s.len(),
{
    if s.len() == 0 {
        Seq::empty()
    } else {
        escape_text(s.drop_last()) + escape_char(s.last())
    }
}

/// `key=value&`, or `key&` where the value is empty.
pub open spec fn form_pair(p: (Seq<char>, Seq<char>)) -> Seq<char> {
    if p.1.len() == 0 {
        escape_text(p.0) + seq!['&']
    } else {
        escape_text(p.0) + seq!['='] + escape_text(p.1) + seq!['&']
    }
}

/// Form encoding of ASCII pairs, each one closed by `&`.
pub open spec fn form_encode(ps: Seq<(Seq<char>, Seq<char>)>) -> Seq<char>
    decreases ps.len(),
{
    if ps.len() == 0 {
        Seq::empty()
    } else {
        form_encode(ps.drop_last()) + form_pair(ps.last())
    }
}

/// A form body: the form encoding of the pairs joined by `&`, with no `&` after the last.
pub open spec fn form_body(ps: Seq<(Seq<char>, Seq<char>)>) -> Seq<char> {
    form_encode(ps).drop_last()
}

/// Every non-overlapping occurrence of `from`, leftmost first, replaced by `to`.
pub open spec fn replace_text(s: Seq<char>, from: Seq<char>, to: Seq<char>) -> Seq<char>
    decreases s.len(),
{
    if from.len() == 0 || s.len() < from.len() {
        s
    } else if s.subrange(0, from.len() as int) == from {
        to + replace_text(s.subrange(from.len() as int, s.len() as int), from, to)
    } else {
        seq![s[0]] + replace_text(s.subrange(1, s.len() as int), from, to)
    }
}

pub(crate) proof fn lemma_hex_digits(b: Seq<u8>)
    ensures
        is_upper_hex(hex_text(b, true)),
        is_lower_hex(hex_text(b, false)),
{
    assert forall|i: int| 0 <= i < hex_text(b, true).len() implies {
        let c = #[trigger] hex_text(b, true)[i];
        ('0' <= c && c <= '9') || ('A' <= c && c <= 'F')
    } by {
        let n = if i % 2 == 0 { b[i / 2] as int / 16 } else { b[i / 2] as int % 16 };
        assert(0 <= n < 16);
    }
    assert forall|i: int| 0 <= i < hex_text(b, false).len() implies {
        let c = #[trigger] hex_text(b, false)[i];
        ('0' <= c && c <= '9') || ('a' <= c && c <= 'f')
    } by {
        let n = if i % 2 == 0 { b[i / 2] as int / 16 } else { b[i / 2] as int % 16 };
        assert(0 <= n < 16);
    }
}

pub(crate) proof fn lemma_escape_unreserved(s: Seq<char>)
    requires
        forall|i: int| 0 <= i < s.len() ==> is_unreserved(#[trigger] s[i]),
    ensures
        escape_text(s) == s,
    decreases s.len(),
{
    if s.len() > 0 {
        lemma_escape_unreserved(s.drop_last());
        assert(is_unreserved(s[s.len() - 1]));
        assert(s.drop_last().push(s.last()) =~= s);
    }
}

pub(crate) proof fn lemma_form_single(k: Seq<char>, v: Seq<char>)
    requires
        v.len() > 0,
    ensures
        form_encode(seq![(k, v)]) == escape_text(k) + seq!['='] + escape_text(v) + seq!['&'],
{
    assert(seq![(k, v)].drop_last() =~= Seq::<(Seq<char>, Seq<char>)>::empty());
    assert(form_encode(Seq::<(Seq<char>, Seq<char>)>::empty()) + form_pair((k, v)) =~= form_pair(
        (k, v),
    ));
}

pub(crate) proof fn lemma_form_double(k1: Seq<char>, v1: Seq<char>, k2: Seq<char>, v2: Seq<char>)
    requires
        v1.len() > 0,
        v2.len() > 0,
    ensures
        form_encode(seq![(k1, v1), (k2, v2)]) == escape_text(k1) + seq!['='] + escape_text(v1)
            + seq!['&'] + escape_text(k2) + seq!['='] + escape_text(v2) + seq!['&'],
{
    assert(seq![(k1, v1), (k2, v2)].drop_last() =~= seq![(k1, v1)]);
    lemma_form_single(k1, v1);
    assert(form_encode(seq![(k1, v1), (k2, v2)]) == form_encode(seq![(k1, v1)]) + form_pair(
        (k2, v2),
    ));
    assert(form_encode(seq![(k1, v1), (k2, v2)]) =~= escape_text(k1) + seq!['='] + escape_text(v1)
        + seq!['&'] + escape_text(k2) + seq!['='] + escape_text(v2) + seq!['&']);
}

proof fn lemma_ascii_concat(a: Seq<char>, b: Seq<char>)
    requires
        is_ascii_text(a),
        is_ascii_text(b),
    ensures
        is_ascii_text(a + b),
{
    assert forall|i: int| 0 <= i < (a + b).len() implies '\0' <= #[trigger] (a + b)[i] <= '\u{7f}' by {
        if i < a.len() {
            assert((a + b)[i] == a[i]);
        } else {
            assert((a + b)[i] == b[i - a.len()]);
        }
    }
}

proof fn lemma_escape_ascii(s: Seq<char>)
    requires
        is_ascii_text(s),
    ensures
        is_ascii_text(escape_text(s)),
    decreases s.len(),
{
    if s.len() > 0 {
        lemma_escape_ascii(s.drop_last());
        let c = s.last();
        assert(c <= '\u{7f}');
        assert((c as u32) < 128);
        let n = c as u32 as int;
        assert(0 <= n / 16 < 16 && 0 <= n % 16 < 16);
        assert(is_ascii_text(escape_char(c)));
        lemma_ascii_concat(escape_text(s.drop_last()), escape_char(c));
    }
}

/// The form encoding of ASCII pairs is ASCII, and closes with `&` when there is a pair.
pub(crate) proof fn lemma_form_ascii(ps: Seq<(Seq<char>, Seq<char>)>)
    requires
        pairs_are_ascii(ps),
    ensures
        is_ascii_text(form_encode(ps)),
        ps.len() > 0 ==> form_encode(ps).len() > 0 && form_encode(ps).last() == '&',
    decreases ps.len(),
{
    if ps.len() > 0 {
        let init = ps.drop_last();
        assert(pairs_are_ascii(init)) by {
            assert forall|i: int| 0 <= i < init.len() implies is_ascii_text(#[trigger] init[i].0)
                && is_ascii_text(init[i].1) by {
                assert(init[i] == ps[i]);
            }
        }
        lemma_form_ascii(init);
        let p = ps.last();
        assert(is_ascii_text(p.0) && is_ascii_text(p.1)) by {
            assert(p == ps[ps.len() - 1]);
        }
        lemma_escape_ascii(p.0);
        lemma_escape_ascii(p.1);
        let amp = seq!['&'];
        let eq = seq!['='];
        assert(is_ascii_text(amp));
        assert(is_ascii_text(eq));
        if p.1.len() == 0 {
            lemma_ascii_concat(escape_text(p.0), amp);
        } else {
            lemma_ascii_concat(escape_text(p.0), eq);
            lemma_ascii_concat(escape_text(p.0) + eq, escape_text(p.1));
            lemma_ascii_concat(escape_text(p.0) + eq + escape_text(p.1), amp);
        }
        lemma_ascii_concat(form_encode(init), form_pair(p));
    }
}

/// Pairs of string slices, seen as pairs of character sequences.
pub open spec fn str_pairs(v: Seq<(&str, &str)>) -> Seq<(Seq<char>, Seq<char>)> {
    v.map_values(|p: (&str, &str)| (p.0@, p.1@))
}

/// The value of the first pair whose key is `k`.
pub open spec fn first_value(ps: Seq<(Seq<char>, Seq<char>)>, k: Seq<char>) -> Option<Seq<char>>
    decreases ps.len(),
{
    if ps.len() == 0 {
        None
    } else if ps[0].0 == k {
        Some(ps[0].1)
    } else {
        first_value(ps.drop_first(), k)
    }
}

pub open spec fn is_digit(c: char) -> bool {
    '0' <= c && c <= '9'
}

/// The number that a run of decimal digits spells.
pub open spec fn digits_value(d: Seq<char>) -> nat
    decreases d.len(),
{
    if d.len() == 0 {
        0
    } else {
        digits_value(d.drop_last()) * 10 + ((d.last() as u32) - ('0' as u32)) as nat
    }
}

/// What `str::parse::<usize>` accepts: an optional `+`, then one or more ASCII
/// digits whose value fits.
pub open spec fn parsed_usize(s: Seq<char>) -> Option<usize> {
    let d = if s.len() > 0 && s[0] == '+' { s.drop_first() } else { s };
    if d.len() > 0 && (forall|i: int| 0 <= i < d.len() ==> is_digit(#[trigger] d[i]))
        && digits_value(d) <= usize::MAX {
        Some(digits_value(d) as usize)
    } else {
        None
    }
}

/// What `str::parse::<i32>` accepts: an optional `+` or `-`, then one or more
/// ASCII digits whose signed value fits.
pub open spec fn parsed_i32(s: Seq<char>) -> Option<i32> {
    let neg = s.len() > 0 && s[0] == '-';
    let d = if s.len() > 0 && (s[0] == '+' || s[0] == '-') { s.drop_first() } else { s };
    let v: int = if neg { -(digits_value(d) as int) } else { digits_value(d) as int };
    if d.len() > 0 && (forall|i: int| 0 <= i < d.len() ==> is_digit(#[trigger] d[i])) && i32::MIN <= v
        && v <= i32::MAX {
        Some(v as i32)
    } else {
        None
    }
}

/// Relies on urlqstring's `QueryParams::value`: the value of the first pair with the key.
#[verifier::external_body]
pub(crate) fn query_value(params: &Vec<(&str, &str)>, key: &str) -> (r: Option<String>)
    ensures
        match r {
            Some(v) => first_value(str_pairs(params@), key@) == Some(v@),
            None => first_value(str_pairs(params@), key@) is None,
        },
{
    urlqstring::QueryParams::from_vec(params.clone()).value(key).map(|v| v.to_string())
}

/// Relies on `str::parse::<usize>`, which takes an optional `+` and then only
/// ASCII digits, and fails when the value does not fit.
#[verifier::external_body]
pub(crate) fn parse_usize(s: &str) -> (r: Option<usize>)
    ensures
        r == parsed_usize(s@),
{
    s.parse::<usize>().ok()
}

/// Relies on `str::parse::<i32>`, which takes an optional sign and then only
/// ASCII digits, and fails when the value does not fit.
#[verifier::external_body]
pub(crate) fn parse_i32(s: &str) -> (r: Option<i32>)
    ensures
        r == parsed_i32(s@),
{
    s.parse::<i32>().ok()
}

/// Relies on `hex::encode`: two lowercase digits per byte, high nibble first.
#[verifier::external_body]
pub(crate) fn to_hex(b: &[u8]) -> (r: String)
    ensures
        r@ == hex_text(b@, false),
{
    hex::encode(b)
}

/// Relies on `hex::encode_upper`: two uppercase digits per byte, high nibble first.
#[verifier::external_body]
pub(crate) fn to_hex_upper(b: &[u8]) -> (r: String)
    ensures
        r@ == hex_text(b@, true),
{
    hex::encode_upper(b)
}

/// Relies on serde_json's `to_string` for a `str`: the JSON string literal, with
/// `"`, `\` and control characters escaped (the short forms `\b \t \n \f \r`,
/// else `\u00` and two lowercase hex digits) and nothing else; writing a `str`
/// into memory cannot fail.
#[verifier::external_body]
pub(crate) fn json_quote(s: &str) -> (r: String)
    ensures
        r@ == json_string(s@),
{
    serde_json::to_string(s).unwrap()
}

/// A flat JSON object of string members, in the order of the pairs.
pub(crate) fn json_object_string(pairs: &Vec<(String, String)>) -> (r: String)
    ensures
        r@ == json_object(text_pairs(pairs@)),
{
    let ghost ps = text_pairs(pairs@);
    let mut members = String::new();
    let mut i: usize = 0;
    proof {
        assert(ps.subrange(0, 0) =~= Seq::<(Seq<char>, Seq<char>)>::empty());
    }
    while i < pairs.len()
        invariant
            ps == text_pairs(pairs@),
            i <= pairs@.len(),
            members@ == json_members(ps.subrange(0, i as int)),
        decreases pairs.len() - i,
    {
        let ghost pre = members@;
        if i > 0 {
            members = members.concat(",");
        }
        let k = json_quote(pairs[i].0.as_str());
        let v = json_quote(pairs[i].1.as_str());
        members = members.concat(k.as_str()).concat(":").concat(v.as_str());
        proof {
            reveal_strlit(",");
            reveal_strlit(":");
            let nxt = ps.subrange(0, i + 1);
            assert(nxt.drop_last() =~= ps.subrange(0, i as int));
            assert(ps[i as int] == (pairs@[i as int].0@, pairs@[i as int].1@));
            if i == 0 {
                assert(members@ =~= json_member(nxt[0]));
            } else {
                assert(members@ =~= pre + seq![','] + json_member(nxt.last()));
            }
        }
        i = i + 1;
    }
    proof {
        assert(ps.subrange(0, ps.len() as int) =~= ps);
        reveal_strlit("{");
        reveal_strlit("}");
    }
    let r = String::from_str("{").concat(members.as_str()).concat("}");
    proof {
        assert(r@ =~= json_object(ps));
    }
    r
}

/// Relies on urlqstring's `QueryParams::stringify`, which percent-encodes each
/// byte outside its kept set and closes every pair with `&`.
#[verifier::external_body]
pub(crate) fn form_string(pairs: &Vec<(String, String)>) -> (r: String)
    ensures
        pairs_are_ascii(text_pairs(pairs@)) ==> r@ == form_encode(text_pairs(pairs@)),
{
    let v: Vec<(&str, &str)> = pairs.iter().map(|p| (p.0.as_str(), p.1.as_str())).collect();
    urlqstring::QueryParams::from_vec(v).stringify()
}

fn drop_last_ascii(s: String) -> (r: String)
    requires
        is_ascii_text(s@),
        s@.len() > 0,
    ensures
        r@ == s@.drop_last(),
{
    let t = s.as_str();
    let ghost bytes = t.spec_bytes();
    let ghost d = s@.drop_last();
    proof {
        assert(is_ascii_chars(d)) by {
            assert forall|i: int| 0 <= i < d.len() implies '\0' <= #[trigger] d[i] <= '\u{7f}' by {
                assert(d[i] == s@[i]);
            }
        }
        is_ascii_chars_encode_utf8(s@);
        is_ascii_chars_encode_utf8(d);
        encode_utf8_valid_utf8(s@);
        assert(t@ == s@);
        assert(bytes == encode_utf8(s@));
        assert(bytes.len() == s@.len());
        let k = s@.len() - 1;
        assert(s@[k] <= '\u{7f}');
        assert((s@[k] as u32) < 128);
        assert(bytes[k] == s@[k] as u8);
        assert(bytes[k] < 0x80);
        is_char_boundary_iff_not_is_continuation_byte(bytes, k);
    }
    let n = t.as_bytes().len();
    assert(n == bytes.len());
    assert(n >= 1);
    assert(is_char_boundary(t.spec_bytes(), n - 1));
    let (p, _) = t.split_at(n - 1);
    proof {
        assert(encode_utf8(d) =~= bytes.subrange(0, n - 1));
        encode_utf8_decode_utf8(p@);
        encode_utf8_decode_utf8(d);
    }
    String::from_str(p)
}

/// The form body of non-empty ASCII pairs: urlqstring's encoding without its closing `&`.
pub(crate) fn form_body_string(pairs: &Vec<(String, String)>) -> (r: String)
    requires
        pairs_are_ascii(text_pairs(pairs@)),
        pairs@.len() > 0,
    ensures
        r@ == form_body(text_pairs(pairs@)),
{
    let s = form_string(pairs);
    proof {
        lemma_form_ascii(text_pairs(pairs@));
    }
    drop_last_ascii(s)
}

/// What `str::to_uppercase` returns; it depends on the characters alone.
pub uninterp spec fn upper_of(s: Seq<char>) -> Seq<char>;

/// Relies on `str::to_uppercase`.
#[verifier::external_body]
pub(crate) fn to_upper(s: &str) -> (r: String)
    ensures
        r@ == upper_of(s@),
{
    s.to_uppercase()
}

/// Relies on `str::replace`: non-overlapping matches, left to right.
#[verifier::external_body]
pub(crate) fn replace_all(s: &str, from: &str, to: &str) -> (r: String)
    requires
        from@.len() > 0,
    ensures
        r@ == replace_text(s@, from@, to@),
{
    s.replace(from, to)
}

} // verus!
