use vstd::prelude::*;

use crate::plaintext::Polynomial;
use vstd::arithmetic::div_mod::{lemma_breakdown, lemma_small_mod};
use vstd::arithmetic::power2::{
    lemma2_to64, lemma2_to64_rest, lemma_pow2_pos, lemma_pow2_strictly_increases,
    lemma_pow2_unfold, pow2,
};
use vstd::bits::{lemma_u64_shl_is_mul, lemma_u64_shr_is_div};

verus! {

/// Bit `i` of `v`: the quotient by `2^i`, reduced modulo 2.
pub open spec fn bit_of(v: u64, i: nat) -> u64 {
    (((v as nat) / pow2(i)) % 2) as u64
}

/// The minimal number of significant bits of `v`: the smallest `n` with
/// `v < 2^n`. Zero has no significant bits.
pub open spec fn sig_bits(v: nat) -> nat
    decreases v,
{
    if v == 0 {
        0
    } else {
        sig_bits(v / 2) + 1
    }
}

/// The unsigned encoding: one coefficient per bit of the native width, bit
/// `i` of the magnitude stored verbatim as coefficient `i`.
pub open spec fn unsigned_encode(v: u64) -> Seq<u64> {
    Seq::new(64, |i: int| bit_of(v, i as nat))
}

/// The weighted sum of the first `n` coefficients, coefficient `i` taken
/// verbatim with weight `2^i`.
pub open spec fn unsigned_decode(c: Seq<u64>, n: nat) -> nat
    decreases n,
{
    if n == 0 {
        0
    } else {
        (unsigned_decode(c, (n - 1) as nat) + c[n - 1] * pow2((n - 1) as nat)) as nat
    }
}

/// The sign threshold: coefficients at or above it are read as additive
/// inverses modulo the plaintext modulus.
pub open spec fn negative_cutoff(p: u64) -> int {
    (p + 1) / 2
}

/// The coefficient stored for one magnitude bit. For a negative value every
/// set bit is replaced by its additive inverse modulo the plaintext modulus
/// `p`; all other coefficients are stored verbatim.
pub open spec fn signed_coeff(b: u64, negative: bool, p: u64) -> u64 {
    if negative && b == 1 {
        (p - 1) as u64
    } else {
        b
    }
}

/// The signed encoding of a magnitude over `n` coefficients.
pub open spec fn signed_encode(mag: u64, negative: bool, p: u64, n: nat) -> Seq<u64> {
    Seq::new(n, |i: int| signed_coeff(bit_of(mag, i as nat), negative, p))
}

/// The contribution of coefficient `c` at position `i` when decoding a
/// signed value: positive weight below the cutoff, the (negated) distance to
/// the plaintext modulus `p` at or above it.
pub open spec fn signed_term(c: u64, p: u64, i: nat) -> int {
    if (c as int) < negative_cutoff(p) {
        c * pow2(i)
    } else {
        -((p - c) * pow2(i))
    }
}

/// The signed decoding of the first `n` coefficients.
pub open spec fn signed_decode(c: Seq<u64>, p: u64, n: nat) -> int
    decreases n,
{
    if n == 0 {
        0
    } else {
        signed_decode(c, p, (n - 1) as nat) + signed_term(c[n - 1], p, (n - 1) as nat)
    }
}

/// The magnitude of a signed value, as the unsigned native type.
pub open spec fn magnitude(v: i64) -> u64 {
    if v < 0 {
        (-(v as int)) as u64
    } else {
        v as u64
    }
}

/// How many coefficients decoding examines: all that are present, capped at
/// the native integer width.
pub open spec fn decode_len(c: Seq<u64>) -> nat {
    if c.len() < 64 {
        c.len()
    } else {
        64
    }
}

/// Every value fits in the claimed number of significant bits, and no
/// shorter prefix suffices.
pub proof fn lemma_sig_bits_bounds(v: nat)
    ensures
        v < pow2(sig_bits(v)),
        v > 0 ==> pow2((sig_bits(v) - 1) as nat) <= v,
    decreases v,
{
    if v == 0 {
        assert(pow2(0) == 1) by {
            lemma2_to64();
        }
    } else {
        lemma_sig_bits_bounds(v / 2);
        lemma_pow2_unfold(sig_bits(v));
        if v / 2 > 0 {
            lemma_pow2_unfold((sig_bits(v) - 1) as nat);
        } else {
            assert(pow2(0) == 1) by {
                lemma2_to64();
            }
        }
    }
}

/// A value below `2^n` needs at most `n` significant bits.
pub proof fn lemma_sig_bits_le(v: nat, n: nat)
    requires
        v < pow2(n),
    ensures
        sig_bits(v) <= n,
    decreases n,
{
    if v > 0 {
        if n == 0 {
            assert(pow2(0) == 1) by {
                lemma2_to64();
            }
        } else {
            lemma_pow2_unfold(n);
            lemma_sig_bits_le(v / 2, (n - 1) as nat);
        }
    }
}

/// A 64-bit value has at most 64 significant bits.
pub proof fn lemma_sig_bits_le_64(v: u64)
    ensures
        sig_bits(v as nat) <= 64,
{
    lemma2_to64_rest();
    lemma_sig_bits_le(v as nat, 64);
}

/// Decoding more coefficients never decreases the unsigned sum.
pub proof fn lemma_unsigned_decode_mono(c: Seq<u64>, n1: nat, n2: nat)
    requires
        n1 <= n2,
    ensures
        unsigned_decode(c, n1) <= unsigned_decode(c, n2),
    decreases n2,
{
    if n1 < n2 {
        lemma_unsigned_decode_mono(c, n1, (n2 - 1) as nat);
    }
}

/// Decoding a prefix of the unsigned encoding recovers the value reduced
/// modulo the weight of the first coefficient past the prefix.
pub proof fn lemma_unsigned_decode_prefix(v: u64, n: nat)
    requires
        n <= 64,
    ensures
        unsigned_decode(unsigned_encode(v), n) == (v as nat) % pow2(n),
    decreases n,
{
    if n == 0 {
        assert(pow2(0) == 1) by {
            lemma2_to64();
        }
    } else {
        lemma_unsigned_decode_prefix(v, (n - 1) as nat);
        lemma_pow2_pos((n - 1) as nat);
        let b = bit_of(v, (n - 1) as nat);
        assert(unsigned_encode(v)[n - 1] == b);
        assert(unsigned_decode(unsigned_encode(v), n) == unsigned_decode(
            unsigned_encode(v),
            (n - 1) as nat,
        ) + b * pow2((n - 1) as nat));
        lemma_breakdown(v as int, pow2((n - 1) as nat) as int, 2);
        assert(v as int % ((pow2((n - 1) as nat) * 2) as int) == pow2((n - 1) as nat) * ((v as int / (pow2(
            (n - 1) as nat,
        ) as int)) % 2) + v as int % (pow2((n - 1) as nat) as int));
        lemma_pow2_unfold(n);
        assert(pow2((n - 1) as nat) * 2 == pow2(n));
        assert(b == (v as int / (pow2((n - 1) as nat) as int)) % 2);
    }
}

/// Round trip for unsigned values: decoding the unsigned encoding of any
/// representable value yields that value back.
pub proof fn lemma_unsigned_round_trip(v: u64)
    ensures
        unsigned_decode(unsigned_encode(v), decode_len(unsigned_encode(v))) == v as nat,
{
    lemma_unsigned_decode_prefix(v, 64);
    lemma2_to64_rest();
    lemma_small_mod(v as nat, pow2(64));
}

/// Decoding a prefix of a sequence that stores the signed coefficient
/// convention recovers the signed residue of the magnitude, provided the
/// plaintext modulus keeps the stored bit patterns on their own side of the
/// cutoff.
pub proof fn lemma_signed_decode_prefix(c: Seq<u64>, mag: u64, neg: bool, p: u64, n: nat)
    requires
        p >= 3,
        forall|i: int| 0 <= i < n ==> c[i] == signed_coeff(bit_of(mag, i as nat), neg, p),
    ensures
        signed_decode(c, p, n) == if neg {
            -((mag as nat % pow2(n)) as int)
        } else {
            (mag as nat % pow2(n)) as int
        },
    decreases n,
{
    if n == 0 {
        assert(pow2(0) == 1) by {
            lemma2_to64();
        }
    } else {
        lemma_signed_decode_prefix(c, mag, neg, p, (n - 1) as nat);
        lemma_pow2_pos((n - 1) as nat);
        let b = bit_of(mag, (n - 1) as nat);
        assert(0 <= ((mag as nat) / pow2((n - 1) as nat)) % 2 < 2) by (nonlinear_arith);
        assert(b == 0 || b == 1);
        assert(negative_cutoff(p) >= 2) by (nonlinear_arith)
            requires
                p >= 3,
        ;
        assert(p - 1 >= negative_cutoff(p)) by (nonlinear_arith)
            requires
                p >= 3,
        ;
        assert(c[n - 1] == signed_coeff(b, neg, p));
        assert(signed_term(c[n - 1], p, (n - 1) as nat) == if neg {
            -(b * pow2((n - 1) as nat))
        } else {
            b * pow2((n - 1) as nat)
        });
        assert(signed_decode(c, p, n) == signed_decode(c, p, (n - 1) as nat) + signed_term(
            c[n - 1],
            p,
            (n - 1) as nat,
        ));
        lemma_breakdown(mag as int, pow2((n - 1) as nat) as int, 2);
        assert(mag as int % ((pow2((n - 1) as nat) * 2) as int) == pow2((n - 1) as nat) * ((mag as int / (
        pow2((n - 1) as nat) as int)) % 2) + mag as int % (pow2((n - 1) as nat) as int));
        lemma_pow2_unfold(n);
        assert(pow2((n - 1) as nat) * 2 == pow2(n));
        assert(b == (mag as int / (pow2((n - 1) as nat) as int)) % 2);
    }
}

/// Round trip for signed values: decoding the signed encoding of any value
/// other than the most negative one yields that value back, over any prefix
/// length that covers the magnitude's significant bits, for any plaintext
/// modulus of at least 3.
pub proof fn lemma_signed_round_trip(v: i64, p: u64, n: nat)
    requires
        p >= 3,
        v > i64::MIN,
        sig_bits(magnitude(v) as nat) <= n,
    ensures
        signed_decode(signed_encode(magnitude(v), v < 0, p, n), p, n) == v as int,
{
    let mag = magnitude(v);
    lemma_signed_decode_prefix(signed_encode(mag, v < 0, p, n), mag, v < 0, p, n);
    lemma_sig_bits_bounds(mag as nat);
    if sig_bits(mag as nat) < n {
        lemma_pow2_strictly_increases(sig_bits(mag as nat), n);
    }
    lemma_small_mod(mag as nat, pow2(n));
}

/// Sign-convention consistency: the encodings of a value and of its
/// negation set exactly the same coefficient positions; where they are set,
/// the non-negative encoding stores the bit verbatim and the negative
/// encoding stores its additive inverse modulo the plaintext modulus.
pub proof fn lemma_sign_convention(v: i64, p: u64, n: nat)
    requires
        v != 0,
        v > i64::MIN,
        p >= 2,
    ensures
        magnitude(v) == magnitude((-(v as int)) as i64),
        signed_encode(magnitude(v), v < 0, p, n).len() == signed_encode(
            magnitude(v),
            v >= 0,
            p,
            n,
        ).len(),
        forall|i: int|
            #![trigger signed_encode(magnitude(v), false, p, n)[i]]
            0 <= i < n ==> ((signed_encode(magnitude(v), false, p, n)[i] == 0 <==> signed_encode(
                magnitude(v),
                true,
                p,
                n,
            )[i] == 0) && (signed_encode(magnitude(v), false, p, n)[i] != 0 ==> signed_encode(
                magnitude(v),
                false,
                p,
                n,
            )[i] == 1 && signed_encode(magnitude(v), true, p, n)[i] == p - 1)),
{
    let mag = magnitude(v);
    assert forall|i: int| 0 <= i < n implies (signed_encode(mag, false, p, n)[i] == 0
        <==> signed_encode(mag, true, p, n)[i] == 0) && (signed_encode(mag, false, p, n)[i] != 0
        ==> signed_encode(mag, false, p, n)[i] == 1 && signed_encode(mag, true, p, n)[i] == p
        - 1) by {
        let b = bit_of(mag, i as nat);
        assert(0 <= ((mag as nat) / pow2(i as nat)) % 2 < 2) by (nonlinear_arith);
        assert(b == 0 || b == 1);
    }
}

/// Computes the minimal number of significant bits of `val`.
pub fn significant_bits(val: u64) -> (r: usize)
    ensures
        r == sig_bits(val as nat),
{
    proof {
        lemma_sig_bits_le_64(val);
    }
    let mut n: usize = 0;
    let mut x: u64 = val;
    while x > 0
        invariant
            sig_bits(val as nat) == n + sig_bits(x as nat),
            sig_bits(val as nat) <= 64,
        decreases x,
    {
        x = x / 2;
        n = n + 1;
    }
    n
}

/// Builds the unsigned encoding of `val`: one full-width polynomial holding
/// the bit expansion.
pub fn encode_unsigned_poly(val: u64) -> (poly: Polynomial)
    ensures
        poly@ == unsigned_encode(val),
{
    let mut poly = Polynomial::new();
    poly.resize(64);
    let mut i: usize = 0;
    while i < 64
        invariant
            i <= 64,
            poly@.len() == 64,
            forall|j: int| 0 <= j < i ==> poly@[j] == bit_of(val, j as nat),
        decreases 64 - i,
    {
        let q = val >> (i as u64);
        let bit = q & 1;
        proof {
            lemma_u64_shr_is_div(val, i as u64);
            assert(q & 1 == q % 2) by (bit_vector);
        }
        poly.set_coefficient(i, bit);
        i += 1;
    }
    proof {
        assert(poly@ =~= unsigned_encode(val));
    }
    poly
}

/// Reconstructs an unsigned value as the weighted sum of the coefficients,
/// each taken verbatim.
pub fn decode_unsigned_poly(poly: &Polynomial) -> (val: u64)
    requires
        unsigned_decode(poly@, decode_len(poly@)) <= u64::MAX,
    ensures
        val == unsigned_decode(poly@, decode_len(poly@)),
{
    let len = poly.len();
    let bits: usize = if len < 64 {
        len
    } else {
        64
    };
    let mut val: u64 = 0;
    let mut i: usize = 0;
    while i < bits
        invariant
            bits == decode_len(poly@),
            i <= bits,
            val == unsigned_decode(poly@, i as nat),
            unsigned_decode(poly@, decode_len(poly@)) <= u64::MAX,
        decreases bits - i,
    {
        let c = poly.get_coefficient(i);
        proof {
            lemma_unsigned_decode_mono(poly@, (i + 1) as nat, bits as nat);
            assert(unsigned_decode(poly@, (i + 1) as nat) == val + c * pow2(i as nat));
            lemma2_to64_rest();
            lemma_pow2_strictly_increases(i as nat, 64);
            lemma_u64_shl_is_mul(1, i as u64);
        }
        let w = 1u64 << (i as u64);
        val = val + c * w;
        i += 1;
    }
    val
}

/// Builds the signed encoding of a magnitude over `n` coefficients: bits
/// stored verbatim, with each set bit of a negative value replaced by its
/// additive inverse modulo the plaintext modulus.
pub fn encode_signed_poly(mag: u64, negative: bool, plain_modulus: u64, n: usize) -> (poly:
    Polynomial)
    requires
        plain_modulus >= 2,
        n <= 64,
    ensures
        poly@ == signed_encode(mag, negative, plain_modulus, n as nat),
{
    let mut poly = Polynomial::new();
    poly.resize(n);
    let mut i: usize = 0;
    while i < n
        invariant
            i <= n,
            n <= 64,
            plain_modulus >= 2,
            poly@.len() == n,
            forall|j: int|
                0 <= j < i ==> poly@[j] == signed_coeff(bit_of(mag, j as nat), negative,
                plain_modulus),
        decreases n - i,
    {
        let q = mag >> (i as u64);
        let bit = q & 1;
        proof {
            lemma_u64_shr_is_div(mag, i as u64);
            assert(q & 1 == q % 2) by (bit_vector);
        }
        let coeff = if negative && bit == 1 {
            plain_modulus - 1
        } else {
            bit
        };
        poly.set_coefficient(i, coeff);
        i += 1;
    }
    proof {
        assert(poly@ =~= signed_encode(mag, negative, plain_modulus, n as nat));
    }
    poly
}

/// Reconstructs a signed value: coefficients below the cutoff contribute
/// positively, the rest contribute the negated distance to the plaintext
/// modulus.
pub fn decode_signed_poly(poly: &Polynomial, plain_modulus: u64) -> (val: i64)
    requires
        2 <= plain_modulus < u64::MAX,
        forall|j: int| 0 <= j < decode_len(poly@) ==> poly@[j] <= plain_modulus,
        i64::MIN <= signed_decode(poly@, plain_modulus, decode_len(poly@)) <= i64::MAX,
    ensures
        val == signed_decode(poly@, plain_modulus, decode_len(poly@)),
{
    let len = poly.len();
    let bits: usize = if len < 64 {
        len
    } else {
        64
    };
    let cutoff = (plain_modulus + 1) / 2;
    let mut pos: u128 = 0;
    let mut neg: u128 = 0;
    let mut p2: u128 = 1;
    let mut i: usize = 0;
    proof {
        assert(pow2(0) == 1) by {
            lemma2_to64();
        }
    }
    while i < bits
        invariant
            bits == decode_len(poly@),
            i <= bits,
            2 <= plain_modulus < u64::MAX,
            cutoff == negative_cutoff(plain_modulus),
            forall|j: int| 0 <= j < decode_len(poly@) ==> poly@[j] <= plain_modulus,
            p2 == pow2(i as nat),
            pos + neg <= plain_modulus * (pow2(i as nat) - 1),
            pos - neg == signed_decode(poly@, plain_modulus, i as nat),
        decreases bits - i,
    {
        let c = poly.get_coefficient(i);
        proof {
            lemma2_to64_rest();
            if i as nat + 1 < 64 {
                lemma_pow2_strictly_increases(i as nat + 1, 64);
            }
            lemma_pow2_unfold((i + 1) as nat);
            assert(c * p2 <= plain_modulus * pow2(i as nat)) by (nonlinear_arith)
                requires
                    c <= plain_modulus,
                    p2 == pow2(i as nat),
                    p2 >= 0,
            ;
            assert((plain_modulus - c) * p2 <= plain_modulus * pow2(i as nat)) by (nonlinear_arith)
                requires
                    c <= plain_modulus,
                    p2 == pow2(i as nat),
                    p2 >= 0,
            ;
            assert(plain_modulus * (pow2(i as nat) - 1) + plain_modulus * pow2(i as nat)
                == plain_modulus * (pow2((i + 1) as nat) - 1)) by (nonlinear_arith)
                requires
                    pow2((i + 1) as nat) == 2 * pow2(i as nat),
            ;
            assert(plain_modulus * (pow2((i + 1) as nat) - 1) < u128::MAX) by (nonlinear_arith)
                requires
                    plain_modulus < u64::MAX,
                    pow2((i + 1) as nat) <= pow2(64),
                    pow2(64) == 0x10000000000000000,
            ;
        }
        if c < cutoff {
            pos = pos + (c as u128) * p2;
        } else {
            neg = neg + ((plain_modulus - c) as u128) * p2;
        }
        p2 = p2 * 2;
        i += 1;
        proof {
            lemma_pow2_unfold(i as nat);
        }
    }
    if pos >= neg {
        let d = pos - neg;
        d as i64
    } else {
        let d = neg - pos;
        if d == 0x8000_0000_0000_0000u128 {
            i64::MIN
        } else {
            -(d as i64)
        }
    }
}

} // verus!
