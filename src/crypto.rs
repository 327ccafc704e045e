use aes::cipher::block_padding::Pkcs7;
use aes::cipher::{BlockEncryptMut, KeyInit, KeyIvInit};
use base64::Engine;
use md5::Digest;
use vstd::prelude::*;
use vstd::utf8::encode_utf8;

use crate::rsa::{rsa_encrypt, rsa_hex};
use crate::text::{
    escape_text, form_body, form_body_string, hex_text, is_ascii_text, is_lower_hex,
    lemma_escape_unreserved, lemma_form_double, lemma_form_single, lemma_hex_digits,
    text_pairs, to_hex, to_hex_upper,
};

verus! {

broadcast use vstd::string::group_string_axioms;

/// The fixed CBC initialisation vector, the text `0102030405060708`.
pub open spec fn iv() -> Seq<u8> {
    seq![0x30u8, 0x31u8, 0x30u8, 0x32u8, 0x30u8, 0x33u8, 0x30u8, 0x34u8, 0x30u8, 0x35u8, 0x30u8, 0x36u8, 0x30u8, 0x37u8, 0x30u8, 0x38u8]
}

fn iv_bytes() -> (r: Vec<u8>)
    ensures
        r@ == iv(),
{
    vec![0x30u8, 0x31u8, 0x30u8, 0x32u8, 0x30u8, 0x33u8, 0x30u8, 0x34u8, 0x30u8, 0x35u8, 0x30u8, 0x36u8, 0x30u8, 0x37u8, 0x30u8, 0x38u8]
}

/// The fixed key of the inner WeApi pass, the text `0CoJUm6Qyw8W8jud`.
pub open spec fn preset_key() -> Seq<u8> {
    seq![0x30u8, 0x43u8, 0x6fu8, 0x4au8, 0x55u8, 0x6du8, 0x36u8, 0x51u8, 0x79u8, 0x77u8, 0x38u8, 0x57u8, 0x38u8, 0x6au8, 0x75u8, 0x64u8]
}

fn preset_key_bytes() -> (r: Vec<u8>)
    ensures
        r@ == preset_key(),
{
    vec![0x30u8, 0x43u8, 0x6fu8, 0x4au8, 0x55u8, 0x6du8, 0x36u8, 0x51u8, 0x79u8, 0x77u8, 0x38u8, 0x57u8, 0x38u8, 0x6au8, 0x75u8, 0x64u8]
}

/// The fixed key of the LinuxApi envelope, the text `rFgB&h#%2?^eDg:Q`.
pub open spec fn linux_api_key() -> Seq<u8> {
    seq![0x72u8, 0x46u8, 0x67u8, 0x42u8, 0x26u8, 0x68u8, 0x23u8, 0x25u8, 0x32u8, 0x3fu8, 0x5eu8, 0x65u8, 0x44u8, 0x67u8, 0x3au8, 0x51u8]
}

fn linux_api_key_bytes() -> (r: Vec<u8>)
    ensures
        r@ == linux_api_key(),
{
    vec![0x72u8, 0x46u8, 0x67u8, 0x42u8, 0x26u8, 0x68u8, 0x23u8, 0x25u8, 0x32u8, 0x3fu8, 0x5eu8, 0x65u8, 0x44u8, 0x67u8, 0x3au8, 0x51u8]
}

/// The fixed key of the EApi envelope, the text `e82ckenh8dichen8`.
pub open spec fn eapi_key() -> Seq<u8> {
    seq![0x65u8, 0x38u8, 0x32u8, 0x63u8, 0x6bu8, 0x65u8, 0x6eu8, 0x68u8, 0x38u8, 0x64u8, 0x69u8, 0x63u8, 0x68u8, 0x65u8, 0x6eu8, 0x38u8]
}

fn eapi_key_bytes() -> (r: Vec<u8>)
    ensures
        r@ == eapi_key(),
{
    vec![0x65u8, 0x38u8, 0x32u8, 0x63u8, 0x6bu8, 0x65u8, 0x6eu8, 0x68u8, 0x38u8, 0x64u8, 0x69u8, 0x63u8, 0x68u8, 0x65u8, 0x6eu8, 0x38u8]
}

/// What AES-128 in CBC mode with PKCS#7 padding makes of `data`.
pub uninterp spec fn aes128_cbc_of(key: Seq<u8>, iv: Seq<u8>, data: Seq<u8>) -> Seq<u8>;

/// What AES-128 in ECB mode with PKCS#7 padding makes of `data`.
pub uninterp spec fn aes128_ecb_of(key: Seq<u8>, data: Seq<u8>) -> Seq<u8>;

/// The MD5 digest of `data`.
pub uninterp spec fn md5_of(data: Seq<u8>) -> Seq<u8>;

/// Characters of the standard base64 alphabet and its padding.
pub open spec fn is_base64_text(s: Seq<char>) -> bool {
    forall|i: int|
        0 <= i < s.len() ==> {
            let c = #[trigger] s[i];
            ('A' <= c && c <= 'Z') || ('a' <= c && c <= 'z') || ('0' <= c && c <= '9') || c == '+'
                || c == '/' || c == '='
        }
}

/// The character of a 6-bit value in the standard base64 alphabet
/// (`A-Z`, `a-z`, `0-9`, `+`, `/`).
pub open spec fn b64_char(n: int) -> char {
    if n < 26 {
        ((65 + n) as u32) as char
    } else if n < 52 {
        ((97 + n - 26) as u32) as char
    } else if n < 62 {
        ((48 + n - 52) as u32) as char
    } else if n == 62 {
        '+'
    } else {
        '/'
    }
}

/// Standard base64 (RFC 4648) with `=` padding: every three bytes, high bits
/// first, become four characters; a last group of one or two bytes is padded.
pub open spec fn base64_text(d: Seq<u8>) -> Seq<char>
    decreases d.len(),
{
    if d.len() == 0 {
        Seq::empty()
    } else if d.len() == 1 {
        let a = d[0] as int;
        seq![b64_char(a / 4), b64_char((a % 4) * 16), '=', '=']
    } else if d.len() == 2 {
        let a = d[0] as int;
        let b = d[1] as int;
        seq![b64_char(a / 4), b64_char((a % 4) * 16 + b / 16), b64_char((b % 16) * 4), '=']
    } else {
        let a = d[0] as int;
        let b = d[1] as int;
        let c = d[2] as int;
        seq![b64_char(a / 4), b64_char((a % 4) * 16 + b / 16), b64_char((b % 16) * 4 + c / 64), b64_char(c % 64)]
            + base64_text(d.subrange(3, d.len() as int))
    }
}

proof fn lemma_b64_char(n: int)
    requires
        0 <= n < 64,
    ensures
        is_base64_text(seq![b64_char(n)]),
{
}

/// Base64 text uses the alphabet and `=` only, four characters per started group of three.
pub(crate) proof fn lemma_base64_shape(d: Seq<u8>)
    ensures
        is_base64_text(base64_text(d)),
        base64_text(d).len() == 4 * ((d.len() + 2) / 3),
    decreases d.len(),
{
    if d.len() > 0 {
        let a = d[0] as int;
        let b = if d.len() > 1 { d[1] as int } else { 0 };
        let c = if d.len() > 2 { d[2] as int } else { 0 };
        lemma_b64_char(a / 4);
        lemma_b64_char((a % 4) * 16 + b / 16);
        lemma_b64_char((b % 16) * 4 + c / 64);
        lemma_b64_char(c % 64);
        lemma_b64_char((a % 4) * 16);
        lemma_b64_char((b % 16) * 4);
        if d.len() > 2 {
            let rest = d.subrange(3, d.len() as int);
            lemma_base64_shape(rest);
            let g = seq![b64_char(a / 4), b64_char((a % 4) * 16 + b / 16), b64_char((b % 16) * 4 + c / 64), b64_char(c % 64)];
            assert forall|i: int| 0 <= i < (g + base64_text(rest)).len() implies {
                let ch = #[trigger] (g + base64_text(rest))[i];
                ('A' <= ch && ch <= 'Z') || ('a' <= ch && ch <= 'z') || ('0' <= ch && ch <= '9') || ch == '+'
                    || ch == '/' || ch == '='
            } by {
                if i < 4 {
                    assert((g + base64_text(rest))[i] == g[i]);
                    assert(seq![g[i]][0] == g[i]);
                } else {
                    assert((g + base64_text(rest))[i] == base64_text(rest)[i - 4]);
                }
            }
        } else {
            let t = base64_text(d);
            assert forall|i: int| 0 <= i < t.len() implies {
                let ch = #[trigger] t[i];
                ('A' <= ch && ch <= 'Z') || ('a' <= ch && ch <= 'z') || ('0' <= ch && ch <= '9') || ch == '+'
                    || ch == '/' || ch == '='
            } by {
                assert(seq![t[i]][0] == t[i]);
            }
        }
    }
}

/// Relies on cbc's `Encryptor<Aes128>` and `encrypt_padded_vec_mut::<Pkcs7>`:
/// PKCS#7 pads to the next whole 16-byte block, adding 1 to 16 bytes.
#[verifier::external_body]
fn aes_cbc_encrypt(key: &[u8], iv: &[u8], data: &[u8]) -> (r: Vec<u8>)
    requires
        key@.len() == 16,
        iv@.len() == 16,
    ensures
        r@ == aes128_cbc_of(key@, iv@, data@),
        r@.len() == (data@.len() / 16 + 1) * 16,
{
    let cipher = cbc::Encryptor::<aes::Aes128>::new_from_slices(key, iv).unwrap();
    cipher.encrypt_padded_vec_mut::<Pkcs7>(data)
}

/// Relies on ecb's `Encryptor<Aes128>` and `encrypt_padded_vec_mut::<Pkcs7>`:
/// PKCS#7 pads to the next whole 16-byte block, adding 1 to 16 bytes.
#[verifier::external_body]
fn aes_ecb_encrypt(key: &[u8], data: &[u8]) -> (r: Vec<u8>)
    requires
        key@.len() == 16,
    ensures
        r@ == aes128_ecb_of(key@, data@),
        r@.len() == (data@.len() / 16 + 1) * 16,
{
    let cipher = ecb::Encryptor::<aes::Aes128>::new_from_slice(key).unwrap();
    cipher.encrypt_padded_vec_mut::<Pkcs7>(data)
}

/// Relies on base64's `STANDARD` engine: the standard alphabet with `=` padding
/// (its `encoded_len` overflows only for lengths no slice reaches).
#[verifier::external_body]
fn to_base64(data: &[u8]) -> (r: String)
    ensures
        r@ == base64_text(data@),
{
    base64::engine::general_purpose::STANDARD.encode(data)
}

/// Relies on md-5's `Md5::digest`, a 16-byte digest.
#[verifier::external_body]
fn md5_digest(data: &[u8]) -> (r: Vec<u8>)
    ensures
        r@ == md5_of(data@),
        r@.len() == 16,
{
    md5::Md5::digest(data).to_vec()
}

/// rand's `random`, which draws from the thread-local generator (a CSPRNG in
/// rand 0.8); nothing is known of the value drawn. Ephemeral keys, cookie
/// markers and User-Agent picks all draw from it.
pub assume_specification<T>[ rand::random::<T> ]() -> (r: T)
    where
        rand::distributions::Standard: rand::distributions::Distribution<T>,
;

/// The `i`-th character (`i < 62`) of the alphabet `a-z`, `A-Z`, `0-9`.
pub open spec fn base62_at(i: int) -> u8 {
    if i < 26 {
        (97 + i) as u8
    } else if i < 52 {
        (65 + i - 26) as u8
    } else {
        (48 + i - 52) as u8
    }
}

pub open spec fn is_base62(b: u8) -> bool {
    (97 <= b && b <= 122) || (65 <= b && b <= 90) || (48 <= b && b <= 57)
}

/// A WeApi ephemeral key: 16 characters of the base62 alphabet.
pub open spec fn is_weapi_key(k: Seq<u8>) -> bool {
    k.len() == 16 && forall|i: int| 0 <= i < k.len() ==> is_base62(#[trigger] k[i])
}

fn base62_byte(i: u8) -> (r: u8)
    requires
        i < 62,
    ensures
        r == base62_at(i as int),
        is_base62(r),
{
    if i < 26 {
        97 + i
    } else if i < 52 {
        65 + (i - 26)
    } else {
        48 + (i - 52)
    }
}

/// The WeApi key spelled by drawn bytes: each picks the base62 character at its value mod 62.
pub open spec fn weapi_key_of(bytes: Seq<u8>) -> Seq<u8> {
    Seq::new(bytes.len(), |i: int| base62_at(bytes[i] as int % 62))
}

/// The WeApi key spelled by `bytes`.
pub fn weapi_key_from(bytes: &Vec<u8>) -> (r: Vec<u8>)
    ensures
        r@ == weapi_key_of(bytes@),
        forall|i: int| 0 <= i < r@.len() ==> is_base62(#[trigger] r@[i]),
{
    let mut key: Vec<u8> = Vec::new();
    let mut i: usize = 0;
    while i < bytes.len()
        invariant
            i <= bytes@.len(),
            key@ == weapi_key_of(bytes@).subrange(0, i as int),
            forall|j: int| 0 <= j < key@.len() ==> is_base62(#[trigger] key@[j]),
        decreases bytes.len() - i,
    {
        key.push(base62_byte(bytes[i] % 62));
        i = i + 1;
        proof {
            assert(key@ =~= weapi_key_of(bytes@).subrange(0, i as int));
        }
    }
    proof {
        assert(weapi_key_of(bytes@).subrange(0, bytes@.len() as int) =~= weapi_key_of(bytes@));
    }
    key
}

/// Draws a fresh WeApi key: 16 random bytes, spelled in base62.
pub fn random_weapi_key() -> (r: Vec<u8>)
    ensures
        is_weapi_key(r@),
        exists|b: Seq<u8>| b.len() == 16 && r@ == weapi_key_of(b),
{
    let mut drawn: Vec<u8> = Vec::new();
    let mut i: usize = 0;
    while i < 16
        invariant
            i <= 16,
            drawn@.len() == i,
        decreases 16 - i,
    {
        drawn.push(rand::random::<u8>());
        i = i + 1;
    }
    let key = weapi_key_from(&drawn);
    assert(drawn@.len() == 16 && key@ == weapi_key_of(drawn@));
    key
}

/// `n` random bytes, written as lowercase hex.
pub fn hex_random_bytes(n: usize) -> (r: String)
    requires
        n <= usize::MAX / 2,
    ensures
        r@.len() == 2 * n,
        exists|b: Seq<u8>| b.len() == n && r@ == hex_text(b, false),
{
    let mut data: Vec<u8> = Vec::new();
    let mut i: usize = 0;
    while i < n
        invariant
            i <= n,
            data@.len() == i,
        decreases n - i,
    {
        data.push(rand::random::<u8>());
        i = i + 1;
    }
    let r = to_hex(data.as_slice());
    assert(data@.len() == n && r@ == hex_text(data@, false));
    r
}

pub open spec fn reversed(s: Seq<u8>) -> Seq<u8> {
    Seq::new(s.len(), |i: int| s[s.len() - 1 - i])
}

fn reverse_bytes(s: &Vec<u8>) -> (r: Vec<u8>)
    ensures
        r@ == reversed(s@),
{
    let mut r: Vec<u8> = Vec::new();
    let mut i: usize = s.len();
    while i > 0
        invariant
            i <= s@.len(),
            r@ == reversed(s@).subrange(0, s@.len() - i),
        decreases i,
    {
        i = i - 1;
        r.push(s[i]);
        proof {
            assert(r@ =~= reversed(s@).subrange(0, s@.len() - i));
        }
    }
    proof {
        assert(reversed(s@).subrange(0, s@.len() as int) =~= reversed(s@));
    }
    r
}

/// The WeApi body for `text` under ephemeral `key`: `text` AES-CBC encrypted with the
/// preset key and base64'd, that text encrypted again with `key` and base64'd, and
/// `key` reversed and wrapped by RSA.
pub open spec fn weapi_text(text: Seq<char>, key: Seq<u8>) -> Seq<char> {
    let inner = base64_text(aes128_cbc_of(preset_key(), iv(), encode_utf8(text)));
    let outer = base64_text(aes128_cbc_of(key, iv(), encode_utf8(inner)));
    form_body(seq![("params"@, outer), ("encSecKey"@, rsa_hex(reversed(key)))])
}

/// The LinuxApi body for `text`: AES-ECB under the LinuxApi key, uppercase hex.
pub open spec fn linuxapi_text(text: Seq<char>) -> Seq<char> {
    form_body(seq![("eparams"@, hex_text(aes128_ecb_of(linux_api_key(), encode_utf8(text)), true))])
}

/// The digest that keys an EApi envelope.
pub open spec fn eapi_digest(url: Seq<char>, text: Seq<char>) -> Seq<char> {
    hex_text(md5_of(encode_utf8("nobody"@ + url + "use"@ + text + "md5forencrypt"@)), false)
}

/// The EApi body: `url-36cd479b6b5-text-36cd479b6b5-digest`, AES-ECB under the
/// EApi key, uppercase hex.
pub open spec fn eapi_text(url: Seq<char>, text: Seq<char>) -> Seq<char> {
    let data = url + "-36cd479b6b5-"@ + text + "-36cd479b6b5-"@ + eapi_digest(url, text);
    form_body(seq![("params"@, hex_text(aes128_ecb_of(eapi_key(), encode_utf8(data)), true))])
}

/// A non-empty ciphertext of whole 16-byte blocks.
pub open spec fn is_block_ciphertext(ct: Seq<u8>) -> bool {
    ct.len() > 0 && ct.len() % 16 == 0
}

/// A LinuxApi body: `eparams=` and the uppercase hex of a non-empty ciphertext of
/// whole 16-byte blocks.
pub open spec fn is_linuxapi_body(s: Seq<char>) -> bool {
    exists|ct: Seq<u8>| is_block_ciphertext(ct) && s == "eparams="@ + hex_text(ct, true)
}

/// A WeApi body: `params=` and the base64 of a non-empty ciphertext of whole
/// 16-byte blocks, form-encoded; then `&encSecKey=` and 256 lowercase hex digits.
pub open spec fn is_weapi_body(s: Seq<char>) -> bool {
    exists|ct: Seq<u8>, h: Seq<char>|
        is_block_ciphertext(ct) && h.len() == 256 && is_lower_hex(h) && s == "params="@
            + escape_text(base64_text(ct)) + "&encSecKey="@ + h
}

proof fn lemma_padded_blocks(n: int)
    requires
        0 <= n,
    ensures
        (n / 16 + 1) * 16 > 0,
        ((n / 16 + 1) * 16) % 16 == 0,
{
    assert(((n / 16 + 1) * 16) % 16 == 0) by (nonlinear_arith)
        requires
            n >= 0,
    ;
}

proof fn lemma_hex_is_ascii(b: Seq<u8>, upper: bool)
    ensures
        is_ascii_text(hex_text(b, upper)),
{
}

proof fn lemma_base64_is_ascii(s: Seq<char>)
    requires
        is_base64_text(s),
    ensures
        is_ascii_text(s),
{
    assert forall|i: int| 0 <= i < s.len() implies (#[trigger] s[i] as u32) < 128 by {
        let c = s[i];
        assert(('A' <= c && c <= 'Z') || ('a' <= c && c <= 'z') || ('0' <= c && c <= '9') || c
            == '+' || c == '/' || c == '=');
    }
}

fn string_pair(k: &str, v: String) -> (r: (String, String))
    ensures
        r.0@ == k@,
        r.1@ == v@,
{
    (String::from_str(k), v)
}

/// The WeApi body for `text` under a given ephemeral `key`.
pub fn weapi_with_key(text: &str, key: &Vec<u8>) -> (r: String)
    requires
        key@.len() == 16,
    ensures
        r@ == weapi_text(text@, key@),
        is_weapi_body(r@),
{
    let iv = iv_bytes();
    let preset = preset_key_bytes();
    let inner = to_base64(aes_cbc_encrypt(preset.as_slice(), iv.as_slice(), text.as_bytes()).as_slice());
    let outer = to_base64(aes_cbc_encrypt(key.as_slice(), iv.as_slice(), inner.as_str().as_bytes()).as_slice());
    let rev = reverse_bytes(key);
    let sec = rsa_encrypt(rev.as_slice());
    let pairs = vec![string_pair("params", outer), string_pair("encSecKey", sec)];
    proof {
        reveal_strlit("params");
        reveal_strlit("encSecKey");
        lemma_base64_shape(aes128_cbc_of(key@, crate::crypto::iv(), encode_utf8(inner@)));
        lemma_base64_is_ascii(pairs@[0].1@);
        lemma_hex_is_ascii(crate::rsa::rsa_block(reversed(key@)), false);
        assert(text_pairs(pairs@) =~= seq![("params"@, pairs@[0].1@), ("encSecKey"@, pairs@[1].1@)]);
        let b = pairs@[0].1@;
        let h = pairs@[1].1@;
        lemma_hex_digits(crate::rsa::rsa_block(reversed(key@)));
        assert(b.len() > 0);
        assert(h.len() > 0);
        lemma_escape_unreserved("params"@);
        lemma_escape_unreserved("encSecKey"@);
        lemma_escape_unreserved(h);
        lemma_form_double("params"@, b, "encSecKey"@, h);
        reveal_strlit("params=");
        reveal_strlit("&encSecKey=");
        assert(("params"@ + seq!['='] + escape_text(b) + seq!['&'] + "encSecKey"@ + seq!['='] + h
            + seq!['&']).drop_last() =~= "params="@ + escape_text(b) + "&encSecKey="@ + h);
        let ct = aes128_cbc_of(key@, crate::crypto::iv(), encode_utf8(inner@));
        lemma_padded_blocks(encode_utf8(inner@).len() as int);
        assert(is_block_ciphertext(ct));
        assert(b == base64_text(ct));
    }
    form_body_string(&pairs)
}

/// The WeApi body for `text`, under a freshly drawn ephemeral key.
pub fn weapi(text: &str) -> (r: String)
    ensures
        exists|k: Seq<u8>| is_weapi_key(k) && r@ == weapi_text(text@, k),
        is_weapi_body(r@),
{
    let key = random_weapi_key();
    weapi_with_key(text, &key)
}

/// The LinuxApi body for `text`.
pub fn linuxapi(text: &str) -> (r: String)
    ensures
        r@ == linuxapi_text(text@),
        is_linuxapi_body(r@),
{
    let key = linux_api_key_bytes();
    let enc = to_hex_upper(aes_ecb_encrypt(key.as_slice(), text.as_bytes()).as_slice());
    let pairs = vec![string_pair("eparams", enc)];
    proof {
        reveal_strlit("eparams");
        lemma_hex_is_ascii(aes128_ecb_of(linux_api_key(), encode_utf8(text@)), true);
        assert(text_pairs(pairs@) =~= seq![("eparams"@, pairs@[0].1@)]);
        let h = pairs@[0].1@;
        lemma_hex_digits(aes128_ecb_of(linux_api_key(), encode_utf8(text@)));
        assert(h.len() > 0);
        lemma_escape_unreserved("eparams"@);
        lemma_escape_unreserved(h);
        lemma_form_single("eparams"@, h);
        reveal_strlit("eparams=");
        assert(("eparams"@ + seq!['='] + h + seq!['&']).drop_last() =~= "eparams="@ + h);
        let ct = aes128_ecb_of(linux_api_key(), encode_utf8(text@));
        lemma_padded_blocks(encode_utf8(text@).len() as int);
        assert(is_block_ciphertext(ct));
        assert(h == hex_text(ct, true));
    }
    form_body_string(&pairs)
}

/// The EApi body for a request to `url` whose serialised parameters are `text`.
pub fn eapi(url: &str, text: &str) -> (r: String)
    ensures
        r@ == eapi_text(url@, text@),
{
    let message = String::from_str("nobody").concat(url).concat("use").concat(text).concat(
        "md5forencrypt",
    );
    let digest = to_hex(md5_digest(message.as_str().as_bytes()).as_slice());
    let data = String::from_str(url).concat("-36cd479b6b5-").concat(text).concat(
        "-36cd479b6b5-",
    ).concat(digest.as_str());
    let key = eapi_key_bytes();
    let enc = to_hex_upper(aes_ecb_encrypt(key.as_slice(), data.as_str().as_bytes()).as_slice());
    let pairs = vec![string_pair("params", enc)];
    proof {
        reveal_strlit("params");
        lemma_hex_is_ascii(aes128_ecb_of(eapi_key(), encode_utf8(data@)), true);
        assert(text_pairs(pairs@) =~= seq![("params"@, pairs@[0].1@)]);
    }
    form_body_string(&pairs)
}

/// Digest algorithms offered for pre-hashing credentials.
pub enum HashType {
    Md5,
}

/// How a digest is written out.
pub enum OutputEncoding {
    Hex,
    HexUpper,
    Base64,
}

pub open spec fn digest_of(h: HashType, data: Seq<u8>) -> Seq<u8> {
    match h {
        HashType::Md5 => md5_of(data),
    }
}

pub open spec fn encoded(e: OutputEncoding, data: Seq<u8>) -> Seq<char> {
    match e {
        OutputEncoding::Hex => hex_text(data, false),
        OutputEncoding::HexUpper => hex_text(data, true),
        OutputEncoding::Base64 => base64_text(data),
    }
}

/// The digest `hash` of the UTF-8 bytes of `text`, written out by `encoding`.
pub fn hash_encrypt(text: &str, hash: HashType, encoding: OutputEncoding) -> (r: String)
    ensures
        r@ == encoded(encoding, digest_of(hash, encode_utf8(text@))),
{
    let digest = match hash {
        HashType::Md5 => md5_digest(text.as_bytes()),
    };
    match encoding {
        OutputEncoding::Hex => to_hex(digest.as_slice()),
        OutputEncoding::HexUpper => to_hex_upper(digest.as_slice()),
        OutputEncoding::Base64 => to_base64(digest.as_slice()),
    }
}

} // verus!
