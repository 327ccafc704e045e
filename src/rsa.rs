use vstd::arithmetic::div_mod::lemma_fundamental_div_mod_converse;
use vstd::arithmetic::power::{lemma_pow1, lemma_pow_increases, lemma_pow_positive, pow};
use vstd::prelude::*;

use crate::text::{hex_text, to_hex};

verus! {

/// The number that a byte sequence spells in big-endian order.
pub open spec fn be_value(s: Seq<u8>) -> nat
    decreases s.len(),
{
    if s.len() == 0 {
        0
    } else {
        be_value(s.drop_last()) * 256 + s.last() as nat
    }
}

/// The `n` low bytes of `v`, most significant first.
pub open spec fn be_bytes(v: nat, n: nat) -> Seq<u8>
    decreases n,
{
    if n == 0 {
        Seq::empty()
    } else {
        be_bytes(v / 256, (n - 1) as nat).push((v % 256) as u8)
    }
}

/// The platform's public modulus, 1024 bits, big-endian.
pub open spec fn modulus_bytes() -> Seq<u8> {
    seq![
        0xe0u8, 0xb5, 0x09, 0xf6, 0x25, 0x9d, 0xf8, 0x64, 0x2d, 0xbc, 0x35, 0x66, 0x29, 0x01, 0x47, 0x7d,
        0xf2, 0x26, 0x77, 0xec, 0x15, 0x2b, 0x5f, 0xf6, 0x8a, 0xce, 0x61, 0x5b, 0xb7, 0xb7, 0x25, 0x15,
        0x2b, 0x3a, 0xb1, 0x7a, 0x87, 0x6a, 0xea, 0x8a, 0x5a, 0xa7, 0x6d, 0x2e, 0x41, 0x76, 0x29, 0xec,
        0x4e, 0xe3, 0x41, 0xf5, 0x61, 0x35, 0xfc, 0xcf, 0x69, 0x52, 0x80, 0x10, 0x4e, 0x03, 0x12, 0xec,
        0xbd, 0xa9, 0x25, 0x57, 0xc9, 0x38, 0x70, 0x11, 0x4a, 0xf6, 0xc9, 0xd0, 0x5c, 0x4f, 0x7f, 0x0c,
        0x36, 0x85, 0xb7, 0xa4, 0x6b, 0xee, 0x25, 0x59, 0x32, 0x57, 0x5c, 0xce, 0x10, 0xb4, 0x24, 0xd8,
        0x13, 0xcf, 0xe4, 0x87, 0x5d, 0x3e, 0x82, 0x04, 0x7b, 0x97, 0xdd, 0xef, 0x52, 0x74, 0x1d, 0x54,
        0x6b, 0x8e, 0x28, 0x9d, 0xc6, 0x93, 0x5b, 0x3e, 0xce, 0x04, 0x62, 0xdb, 0x0a, 0x22, 0xb8, 0xe7,
    ]
}

/// The public exponent.
pub open spec fn public_exponent() -> nat {
    65537
}

/// Width of a wrapped key in bytes: that of the modulus.
pub const KEY_BLOCK_LEN: usize = 128;

/// Textbook RSA of the number `m` spells, as a block of exactly `KEY_BLOCK_LEN` bytes.
pub open spec fn rsa_block(m: Seq<u8>) -> Seq<u8> {
    be_bytes(
        (pow(be_value(m) as int, public_exponent()) % (be_value(modulus_bytes()) as int)) as nat,
        KEY_BLOCK_LEN as nat,
    )
}

/// The wrapped key as the platform reads it: lowercase hex, left-padded with zeros.
pub open spec fn rsa_hex(m: Seq<u8>) -> Seq<char> {
    hex_text(rsa_block(m), false)
}

fn modulus() -> (r: Vec<u8>)
    ensures
        r@ == modulus_bytes(),
{
    vec![
        0xe0u8, 0xb5, 0x09, 0xf6, 0x25, 0x9d, 0xf8, 0x64, 0x2d, 0xbc, 0x35, 0x66, 0x29, 0x01, 0x47, 0x7d,
        0xf2, 0x26, 0x77, 0xec, 0x15, 0x2b, 0x5f, 0xf6, 0x8a, 0xce, 0x61, 0x5b, 0xb7, 0xb7, 0x25, 0x15,
        0x2b, 0x3a, 0xb1, 0x7a, 0x87, 0x6a, 0xea, 0x8a, 0x5a, 0xa7, 0x6d, 0x2e, 0x41, 0x76, 0x29, 0xec,
        0x4e, 0xe3, 0x41, 0xf5, 0x61, 0x35, 0xfc, 0xcf, 0x69, 0x52, 0x80, 0x10, 0x4e, 0x03, 0x12, 0xec,
        0xbd, 0xa9, 0x25, 0x57, 0xc9, 0x38, 0x70, 0x11, 0x4a, 0xf6, 0xc9, 0xd0, 0x5c, 0x4f, 0x7f, 0x0c,
        0x36, 0x85, 0xb7, 0xa4, 0x6b, 0xee, 0x25, 0x59, 0x32, 0x57, 0x5c, 0xce, 0x10, 0xb4, 0x24, 0xd8,
        0x13, 0xcf, 0xe4, 0x87, 0x5d, 0x3e, 0x82, 0x04, 0x7b, 0x97, 0xdd, 0xef, 0x52, 0x74, 0x1d, 0x54,
        0x6b, 0x8e, 0x28, 0x9d, 0xc6, 0x93, 0x5b, 0x3e, 0xce, 0x04, 0x62, 0xdb, 0x0a, 0x22, 0xb8, 0xe7,
    ]
}

fn exponent() -> (r: Vec<u8>)
    ensures
        be_value(r@) == public_exponent(),
{
    let r = vec![1u8, 0u8, 1u8];
    proof {
        assert(r@.drop_last() =~= seq![1u8, 0u8]);
        assert(r@.drop_last().drop_last() =~= seq![1u8]);
        assert(r@.drop_last().drop_last().drop_last() =~= Seq::<u8>::empty());
        assert(be_value(r@.drop_last().drop_last().drop_last()) == 0);
        assert(r@.drop_last().drop_last().last() == 1u8);
        assert(be_value(r@.drop_last().drop_last()) == 1);
        assert(be_value(r@.drop_last()) == 256);
        assert(be_value(r@) == 65537);
    }
    r
}

/// Relies on num-bigint: `BigUint::modpow` on numbers read and written by
/// `from_bytes_be` / `to_bytes_be`, which gives the shortest form (`[0]` for zero);
/// stated for an exponent above zero and a modulus above one.
#[verifier::external_body]
fn mod_pow(base: &[u8], exp: &[u8], modulus: &[u8]) -> (r: Vec<u8>)
    requires
        be_value(exp@) > 0,
        be_value(modulus@) > 1,
    ensures
        be_value(r@) as int == pow(be_value(base@) as int, be_value(exp@)) % (be_value(modulus@) as int),
        r@.len() >= 1,
        r@.len() == 1 || r@[0] != 0,
{
    let b = num_bigint::BigUint::from_bytes_be(base);
    let e = num_bigint::BigUint::from_bytes_be(exp);
    b.modpow(&e, &num_bigint::BigUint::from_bytes_be(modulus)).to_bytes_be()
}

pub(crate) proof fn lemma_be_bytes_len(v: nat, n: nat)
    ensures
        be_bytes(v, n).len() == n,
    decreases n,
{
    if n > 0 {
        lemma_be_bytes_len(v / 256, (n - 1) as nat);
    }
}

proof fn lemma_be_value_below(s: Seq<u8>)
    ensures
        be_value(s) < pow(256, s.len()),
    decreases s.len(),
{
    reveal(pow);
    if s.len() > 0 {
        let init = s.drop_last();
        lemma_be_value_below(init);
        let p = pow(256, init.len());
        assert(pow(256, s.len()) == 256 * p);
        let v = be_value(init) as int;
        assert(v * 256 + 255 < 256 * p) by (nonlinear_arith)
            requires
                v < p,
        ;
    }
}

proof fn lemma_be_value_leading(s: Seq<u8>)
    requires
        s.len() >= 1,
        s[0] != 0,
    ensures
        be_value(s) >= pow(256, (s.len() - 1) as nat),
    decreases s.len(),
{
    reveal(pow);
    if s.len() == 1 {
        assert(s.drop_last().len() == 0);
    } else {
        let init = s.drop_last();
        assert(init[0] == s[0]);
        lemma_be_value_leading(init);
        let p = pow(256, (init.len() - 1) as nat);
        assert(pow(256, (s.len() - 1) as nat) == 256 * p);
        let v = be_value(init) as int;
        assert(v * 256 >= 256 * p) by (nonlinear_arith)
            requires
                v >= p,
        ;
    }
}

proof fn lemma_be_bytes_of_value(s: Seq<u8>)
    ensures
        be_bytes(be_value(s), s.len()) == s,
    decreases s.len(),
{
    if s.len() > 0 {
        let init = s.drop_last();
        lemma_be_bytes_of_value(init);
        lemma_fundamental_div_mod_converse(
            be_value(s) as int,
            256,
            be_value(init) as int,
            s.last() as int,
        );
        assert(s =~= init.push(s.last()));
    }
}

proof fn lemma_be_bytes_pad(v: nat, n: nat, k: nat)
    requires
        v < pow(256, n),
    ensures
        be_bytes(v, n + k) == Seq::new(k, |i: int| 0u8) + be_bytes(v, n),
    decreases n + k,
{
    reveal(pow);
    if k == 0 {
        assert(Seq::new(0, |i: int| 0u8) + be_bytes(v, n) =~= be_bytes(v, n));
    } else if n == 0 {
        assert(v == 0);
        lemma_be_bytes_pad(0, 0, (k - 1) as nat);
        assert(be_bytes(0, k) == be_bytes(0, (k - 1) as nat).push(0u8));
        assert(Seq::new(k, |i: int| 0u8) =~= Seq::new((k - 1) as nat, |i: int| 0u8).push(0u8));
        assert(Seq::new(k, |i: int| 0u8) + be_bytes(0, 0) =~= Seq::new(k, |i: int| 0u8));
        assert(Seq::new((k - 1) as nat, |i: int| 0u8) + be_bytes(0, 0) =~= Seq::new(
            (k - 1) as nat,
            |i: int| 0u8,
        ));
    } else {
        let p = pow(256, (n - 1) as nat);
        assert(pow(256, n) == 256 * p);
        assert(v / 256 < p) by (nonlinear_arith)
            requires
                v < 256 * p,
                p > 0,
        ;
        lemma_pow_positive(256, (n - 1) as nat);
        lemma_be_bytes_pad(v / 256, (n - 1) as nat, k);
        let z = Seq::new(k, |i: int| 0u8);
        assert(be_bytes(v, n + k) == be_bytes(v / 256, (n - 1 + k) as nat).push((v % 256) as u8));
        assert(be_bytes(v, n) == be_bytes(v / 256, (n - 1) as nat).push((v % 256) as u8));
        assert((z + be_bytes(v / 256, (n - 1) as nat)).push((v % 256) as u8) =~= z + be_bytes(
            v / 256,
            (n - 1) as nat,
        ).push((v % 256) as u8));
    }
}

proof fn lemma_modulus_range()
    ensures
        1 < be_value(modulus_bytes()),
        be_value(modulus_bytes()) < pow(256, KEY_BLOCK_LEN as nat),
{
    let m = modulus_bytes();
    lemma_be_value_below(m);
    lemma_be_value_leading(m);
    lemma_pow1(256);
    lemma_pow_increases(256, 1, 127);
}

/// Wraps `m` for the platform: `m` read as a big-endian number, raised to the
/// public exponent modulo the public modulus, written as exactly 256 lowercase
/// hex digits.
pub fn rsa_encrypt(m: &[u8]) -> (r: String)
    ensures
        r@ == rsa_hex(m@),
        r@.len() == 2 * KEY_BLOCK_LEN,
{
    let n = modulus();
    let e = exponent();
    proof {
        lemma_modulus_range();
    }
    let c = mod_pow(m, e.as_slice(), n.as_slice());
    let ghost v: nat = be_value(c@);
    proof {
        if c@.len() > KEY_BLOCK_LEN {
            lemma_be_value_leading(c@);
            lemma_pow_increases(256, KEY_BLOCK_LEN as nat, (c@.len() - 1) as nat);
        }
        lemma_be_bytes_of_value(c@);
        lemma_be_value_below(c@);
    }
    let pad: usize = KEY_BLOCK_LEN - c.len();
    let mut block: Vec<u8> = Vec::new();
    let mut i: usize = 0;
    while i < pad
        invariant
            i <= pad,
            block@ == Seq::new(i as nat, |j: int| 0u8),
        decreases pad - i,
    {
        block.push(0u8);
        i = i + 1;
        proof {
            assert(block@ =~= Seq::new(i as nat, |j: int| 0u8));
        }
    }
    let mut j: usize = 0;
    while j < c.len()
        invariant
            j <= c.len(),
            block@ == Seq::new(pad as nat, |k: int| 0u8) + c@.subrange(0, j as int),
        decreases c.len() - j,
    {
        block.push(c[j]);
        j = j + 1;
        proof {
            assert(block@ =~= Seq::new(pad as nat, |k: int| 0u8) + c@.subrange(0, j as int));
        }
    }
    proof {
        assert(c@.subrange(0, c@.len() as int) =~= c@);
        lemma_be_bytes_pad(v, c@.len(), pad as nat);
        assert(c@.len() + pad == KEY_BLOCK_LEN);
        assert(block@ == rsa_block(m@));
    }
    to_hex(block.as_slice())
}

} // verus!
