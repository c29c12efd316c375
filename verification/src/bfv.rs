use vstd::prelude::*;

use crate::circuit::{Cipher, CircuitNode};
use crate::context::{append_node, graph_wf, Context, OperationV};
use crate::encoding::{
    decode_len, decode_signed_poly, encode_signed_poly, lemma_sig_bits_le_64, magnitude, sig_bits,
    signed_decode, signed_encode, significant_bits,
};
use crate::params::Params;
use crate::plaintext::{Error, Plaintext};

verus! {

/// A single signed integer, encoded compactly: the polynomial is sized to
/// exactly the magnitude's significant bits, so small values stay small.
#[derive(Debug, Clone, Copy, PartialEq, Eq, Structural)]
pub struct Signed {
    pub val: i64,
}

/// The coefficient sequence `Signed::try_into_plaintext` produces for a
/// value under a given plaintext modulus.
pub open spec fn signed_plaintext(v: i64, plain_modulus: u64) -> Seq<u64> {
    signed_encode(magnitude(v), v < 0, plain_modulus, sig_bits(magnitude(v) as nat))
}

impl Signed {
    /// One ring element represents one signed value.
    pub fn num_ciphertexts() -> (n: usize)
        ensures
            n == 1,
    {
        1
    }

    /// Encodes the value over exactly its magnitude's significant bits: bit
    /// `i` of the magnitude becomes coefficient `i`, each set bit of a
    /// negative value stored as its additive inverse modulo the plaintext
    /// modulus. Zero encodes as the zero-length polynomial.
    pub fn try_into_plaintext(&self, params: &Params) -> (r: Result<Plaintext, Error>)
        requires
            params.wf(),
            self.val > i64::MIN,
        ensures
            match r {
                Ok(pt) => pt@ == seq![signed_plaintext(self.val, params.plain_modulus)],
                Err(_) => false,
            },
    {
        let mag: u64 = if self.val < 0 {
            (-self.val) as u64
        } else {
            self.val as u64
        };
        proof {
            lemma_sig_bits_le_64(mag);
        }
        let sig = significant_bits(mag);
        let poly = encode_signed_poly(mag, self.val < 0, params.plain_modulus, sig);
        Ok(Plaintext::from_polynomial(poly))
    }

    /// Decodes a signed value using the sign threshold
    /// `(plain_modulus + 1) / 2`: coefficients below it contribute
    /// positively, the rest contribute the negated distance to the
    /// plaintext modulus. Only the coefficients present are examined, capped
    /// at the native width. A plaintext that does not hold exactly one
    /// polynomial is rejected.
    pub fn try_from_plaintext(plaintext: &Plaintext, params: &Params) -> (r: Result<Signed, Error>)
        requires
            params.wf(),
            params.plain_modulus < u64::MAX,
            plaintext@.len() == 1 ==> {
                &&& forall|j: int|
                    0 <= j < decode_len(plaintext@[0]) ==> #[trigger] plaintext@[0][j]
                        <= params.plain_modulus
                &&& i64::MIN <= signed_decode(
                    plaintext@[0],
                    params.plain_modulus,
                    decode_len(plaintext@[0]),
                ) <= i64::MAX
            },
        ensures
            match r {
                Ok(s) => plaintext@.len() == 1 && s.val == signed_decode(
                    plaintext@[0],
                    params.plain_modulus,
                    decode_len(plaintext@[0]),
                ),
                Err(e) => plaintext@.len() != 1 && e == Error::WrongCiphertextCount,
            },
    {
        if plaintext.num_polynomials() != 1 {
            return Err(Error::WrongCiphertextCount);
        }
        proof {
            assert(plaintext.polynomials@[0]@ == plaintext@[0]);
        }
        let val = decode_signed_poly(&plaintext.polynomials[0], params.plain_modulus);
        Ok(Signed { val })
    }

    /// Addition of two encrypted operands.
    pub fn graph_cipher_add(
        a: &CircuitNode<Cipher<Signed>>,
        b: &CircuitNode<Cipher<Signed>>,
        ctx: &mut Context,
    ) -> (r: Result<CircuitNode<Cipher<Signed>>, Error>)
        requires
            graph_wf(old(ctx)@),
            old(ctx)@.len() < u64::MAX,
            a.wf_in(old(ctx)@.len()),
            b.wf_in(old(ctx)@.len()),
        ensures
            match r {
                Ok(out) => {
                    &&& a.ids@.len() == 1
                    &&& b.ids@.len() == 1
                    &&& out.ids@ == seq![old(ctx)@.len() as u64]
                    &&& final(ctx)@ == append_node(
                        old(ctx)@,
                        OperationV::Add,
                        seq![a.ids@[0], b.ids@[0]],
                    )
                    &&& final(ctx).params == old(ctx).params
                    &&& graph_wf(final(ctx)@)
                },
                Err(e) => {
                    &&& e == Error::WrongComponentCount
                    &&& !(a.ids@.len() == 1 && b.ids@.len() == 1)
                    &&& *final(ctx) == *old(ctx)
                },
            },
    {
        if a.ids.len() != 1 || b.ids.len() != 1 {
            return Err(Error::WrongComponentCount);
        }
        let n = ctx.add_addition(a.ids[0], b.ids[0]);
        Ok(CircuitNode::new(&[n]))
    }

    /// Addition of an encrypted left operand and a plaintext right operand.
    pub fn graph_cipher_plain_add(
        a: &CircuitNode<Cipher<Signed>>,
        b: &CircuitNode<Signed>,
        ctx: &mut Context,
    ) -> (r: Result<CircuitNode<Cipher<Signed>>, Error>)
        requires
            graph_wf(old(ctx)@),
            old(ctx)@.len() < u64::MAX,
            a.wf_in(old(ctx)@.len()),
            b.wf_in(old(ctx)@.len()),
        ensures
            match r {
                Ok(out) => {
                    &&& a.ids@.len() == 1
                    &&& b.ids@.len() == 1
                    &&& out.ids@ == seq![old(ctx)@.len() as u64]
                    &&& final(ctx)@ == append_node(
                        old(ctx)@,
                        OperationV::AddPlaintext,
                        seq![a.ids@[0], b.ids@[0]],
                    )
                    &&& final(ctx).params == old(ctx).params
                    &&& graph_wf(final(ctx)@)
                },
                Err(e) => {
                    &&& e == Error::WrongComponentCount
                    &&& !(a.ids@.len() == 1 && b.ids@.len() == 1)
                    &&& *final(ctx) == *old(ctx)
                },
            },
    {
        if a.ids.len() != 1 || b.ids.len() != 1 {
            return Err(Error::WrongComponentCount);
        }
        let n = ctx.add_addition_plaintext(a.ids[0], b.ids[0]);
        Ok(CircuitNode::new(&[n]))
    }

    /// Addition of an encrypted operand and a compile-time constant: the
    /// constant is encoded under the scope's parameter set, injected as a
    /// literal node, and added as a plaintext operand.
    pub fn graph_cipher_const_add(
        a: &CircuitNode<Cipher<Signed>>,
        b: i64,
        ctx: &mut Context,
    ) -> (r: Result<CircuitNode<Cipher<Signed>>, Error>)
        requires
            graph_wf(old(ctx)@),
            old(ctx)@.len() + 1 < u64::MAX,
            old(ctx).params.wf(),
            b > i64::MIN,
            a.wf_in(old(ctx)@.len()),
        ensures
            match r {
                Ok(out) => {
                    &&& a.ids@.len() == 1
                    &&& out.ids@ == seq![(old(ctx)@.len() + 1) as u64]
                    &&& final(ctx)@ == append_node(
                        append_node(
                            old(ctx)@,
                            OperationV::Literal(
                                seq![signed_plaintext(b, old(ctx).params.plain_modulus)],
                            ),
                            seq![],
                        ),
                        OperationV::AddPlaintext,
                        seq![a.ids@[0], old(ctx)@.len() as u64],
                    )
                    &&& final(ctx).params == old(ctx).params
                    &&& graph_wf(final(ctx)@)
                },
                Err(e) => {
                    &&& e == Error::WrongComponentCount
                    &&& a.ids@.len() != 1
                    &&& *final(ctx) == *old(ctx)
                },
            },
    {
        if a.ids.len() != 1 {
            return Err(Error::WrongComponentCount);
        }
        let pt = match Signed::from(b).try_into_plaintext(&ctx.params) {
            Ok(pt) => pt,
            Err(e) => {
                return Err(e);
            },
        };
        let lit = ctx.add_plaintext_literal(pt);
        let add = ctx.add_addition_plaintext(a.ids[0], lit);
        Ok(CircuitNode::new(&[add]))
    }

    /// Subtraction of two encrypted operands, left minus right.
    pub fn graph_cipher_sub(
        a: &CircuitNode<Cipher<Signed>>,
        b: &CircuitNode<Cipher<Signed>>,
        ctx: &mut Context,
    ) -> (r: Result<CircuitNode<Cipher<Signed>>, Error>)
        requires
            graph_wf(old(ctx)@),
            old(ctx)@.len() < u64::MAX,
            a.wf_in(old(ctx)@.len()),
            b.wf_in(old(ctx)@.len()),
        ensures
            match r {
                Ok(out) => {
                    &&& a.ids@.len() == 1
                    &&& b.ids@.len() == 1
                    &&& out.ids@ == seq![old(ctx)@.len() as u64]
                    &&& final(ctx)@ == append_node(
                        old(ctx)@,
                        OperationV::Sub,
                        seq![a.ids@[0], b.ids@[0]],
                    )
                    &&& final(ctx).params == old(ctx).params
                    &&& graph_wf(final(ctx)@)
                },
                Err(e) => {
                    &&& e == Error::WrongComponentCount
                    &&& !(a.ids@.len() == 1 && b.ids@.len() == 1)
                    &&& *final(ctx) == *old(ctx)
                },
            },
    {
        if a.ids.len() != 1 || b.ids.len() != 1 {
            return Err(Error::WrongComponentCount);
        }
        let n = ctx.add_subtraction(a.ids[0], b.ids[0]);
        Ok(CircuitNode::new(&[n]))
    }

    /// Subtraction of a plaintext right operand from an encrypted left
    /// operand.
    pub fn graph_cipher_plain_sub(
        a: &CircuitNode<Cipher<Signed>>,
        b: &CircuitNode<Signed>,
        ctx: &mut Context,
    ) -> (r: Result<CircuitNode<Cipher<Signed>>, Error>)
        requires
            graph_wf(old(ctx)@),
            old(ctx)@.len() < u64::MAX,
            a.wf_in(old(ctx)@.len()),
            b.wf_in(old(ctx)@.len()),
        ensures
            match r {
                Ok(out) => {
                    &&& a.ids@.len() == 1
                    &&& b.ids@.len() == 1
                    &&& out.ids@ == seq![old(ctx)@.len() as u64]
                    &&& final(ctx)@ == append_node(
                        old(ctx)@,
                        OperationV::SubPlaintext,
                        seq![a.ids@[0], b.ids@[0]],
                    )
                    &&& final(ctx).params == old(ctx).params
                    &&& graph_wf(final(ctx)@)
                },
                Err(e) => {
                    &&& e == Error::WrongComponentCount
                    &&& !(a.ids@.len() == 1 && b.ids@.len() == 1)
                    &&& *final(ctx) == *old(ctx)
                },
            },
    {
        if a.ids.len() != 1 || b.ids.len() != 1 {
            return Err(Error::WrongComponentCount);
        }
        let n = ctx.add_subtraction_plaintext(a.ids[0], b.ids[0]);
        Ok(CircuitNode::new(&[n]))
    }

    /// Subtraction of an encrypted right operand from a plaintext left
    /// operand: built as the negation of `right - left`.
    pub fn graph_plain_cipher_sub(
        a: &CircuitNode<Signed>,
        b: &CircuitNode<Cipher<Signed>>,
        ctx: &mut Context,
    ) -> (r: Result<CircuitNode<Cipher<Signed>>, Error>)
        requires
            graph_wf(old(ctx)@),
            old(ctx)@.len() + 1 < u64::MAX,
            a.wf_in(old(ctx)@.len()),
            b.wf_in(old(ctx)@.len()),
        ensures
            match r {
                Ok(out) => {
                    &&& a.ids@.len() == 1
                    &&& b.ids@.len() == 1
                    &&& out.ids@ == seq![(old(ctx)@.len() + 1) as u64]
                    &&& final(ctx)@ == append_node(
                        append_node(
                            old(ctx)@,
                            OperationV::SubPlaintext,
                            seq![b.ids@[0], a.ids@[0]],
                        ),
                        OperationV::Negate,
                        seq![old(ctx)@.len() as u64],
                    )
                    &&& final(ctx).params == old(ctx).params
                    &&& graph_wf(final(ctx)@)
                },
                Err(e) => {
                    &&& e == Error::WrongComponentCount
                    &&& !(a.ids@.len() == 1 && b.ids@.len() == 1)
                    &&& *final(ctx) == *old(ctx)
                },
            },
    {
        if a.ids.len() != 1 || b.ids.len() != 1 {
            return Err(Error::WrongComponentCount);
        }
        let n = ctx.add_subtraction_plaintext(b.ids[0], a.ids[0]);
        let n = ctx.add_negate(n);
        Ok(CircuitNode::new(&[n]))
    }

    /// Subtraction of a compile-time constant from an encrypted operand:
    /// the constant is encoded, injected as a literal node, and subtracted
    /// as a plaintext operand.
    pub fn graph_cipher_const_sub(
        a: &CircuitNode<Cipher<Signed>>,
        b: i64,
        ctx: &mut Context,
    ) -> (r: Result<CircuitNode<Cipher<Signed>>, Error>)
        requires
            graph_wf(old(ctx)@),
            old(ctx)@.len() + 1 < u64::MAX,
            old(ctx).params.wf(),
            b > i64::MIN,
            a.wf_in(old(ctx)@.len()),
        ensures
            match r {
                Ok(out) => {
                    &&& a.ids@.len() == 1
                    &&& out.ids@ == seq![(old(ctx)@.len() + 1) as u64]
                    &&& final(ctx)@ == append_node(
                        append_node(
                            old(ctx)@,
                            OperationV::Literal(
                                seq![signed_plaintext(b, old(ctx).params.plain_modulus)],
                            ),
                            seq![],
                        ),
                        OperationV::SubPlaintext,
                        seq![a.ids@[0], old(ctx)@.len() as u64],
                    )
                    &&& final(ctx).params == old(ctx).params
                    &&& graph_wf(final(ctx)@)
                },
                Err(e) => {
                    &&& e == Error::WrongComponentCount
                    &&& a.ids@.len() != 1
                    &&& *final(ctx) == *old(ctx)
                },
            },
    {
        if a.ids.len() != 1 {
            return Err(Error::WrongComponentCount);
        }
        let pt = match Signed::from(b).try_into_plaintext(&ctx.params) {
            Ok(pt) => pt,
            Err(e) => {
                return Err(e);
            },
        };
        let lit = ctx.add_plaintext_literal(pt);
        let n = ctx.add_subtraction_plaintext(a.ids[0], lit);
        Ok(CircuitNode::new(&[n]))
    }

    /// Subtraction of an encrypted operand from a compile-time constant:
    /// the constant is encoded and injected as a literal node, the
    /// difference `cipher - constant` is built, and the result is negated.
    pub fn graph_const_cipher_sub(
        a: i64,
        b: &CircuitNode<Cipher<Signed>>,
        ctx: &mut Context,
    ) -> (r: Result<CircuitNode<Cipher<Signed>>, Error>)
        requires
            graph_wf(old(ctx)@),
            old(ctx)@.len() + 2 < u64::MAX,
            old(ctx).params.wf(),
            a > i64::MIN,
            b.wf_in(old(ctx)@.len()),
        ensures
            match r {
                Ok(out) => {
                    &&& b.ids@.len() == 1
                    &&& out.ids@ == seq![(old(ctx)@.len() + 2) as u64]
                    &&& final(ctx)@ == append_node(
                        append_node(
                            append_node(
                                old(ctx)@,
                                OperationV::Literal(
                                    seq![signed_plaintext(a, old(ctx).params.plain_modulus)],
                                ),
                                seq![],
                            ),
                            OperationV::SubPlaintext,
                            seq![b.ids@[0], old(ctx)@.len() as u64],
                        ),
                        OperationV::Negate,
                        seq![(old(ctx)@.len() + 1) as u64],
                    )
                    &&& final(ctx).params == old(ctx).params
                    &&& graph_wf(final(ctx)@)
                },
                Err(e) => {
                    &&& e == Error::WrongComponentCount
                    &&& b.ids@.len() != 1
                    &&& *final(ctx) == *old(ctx)
                },
            },
    {
        if b.ids.len() != 1 {
            return Err(Error::WrongComponentCount);
        }
        let pt = match Signed::from(a).try_into_plaintext(&ctx.params) {
            Ok(pt) => pt,
            Err(e) => {
                return Err(e);
            },
        };
        let lit = ctx.add_plaintext_literal(pt);
        let n = ctx.add_subtraction_plaintext(b.ids[0], lit);
        let n = ctx.add_negate(n);
        Ok(CircuitNode::new(&[n]))
    }

    /// Unary negation of an encrypted operand.
    pub fn graph_cipher_neg(a: &CircuitNode<Cipher<Signed>>, ctx: &mut Context) -> (r: Result<
        CircuitNode<Cipher<Signed>>,
        Error,
    >)
        requires
            graph_wf(old(ctx)@),
            old(ctx)@.len() < u64::MAX,
            a.wf_in(old(ctx)@.len()),
        ensures
            match r {
                Ok(out) => {
                    &&& a.ids@.len() == 1
                    &&& out.ids@ == seq![old(ctx)@.len() as u64]
                    &&& final(ctx)@ == append_node(
                        old(ctx)@,
                        OperationV::Negate,
                        seq![a.ids@[0]],
                    )
                    &&& final(ctx).params == old(ctx).params
                    &&& graph_wf(final(ctx)@)
                },
                Err(e) => {
                    &&& e == Error::WrongComponentCount
                    &&& a.ids@.len() != 1
                    &&& *final(ctx) == *old(ctx)
                },
            },
    {
        if a.ids.len() != 1 {
            return Err(Error::WrongComponentCount);
        }
        let n = ctx.add_negate(a.ids[0]);
        Ok(CircuitNode::new(&[n]))
    }

    /// Multiplication of two encrypted operands.
    pub fn graph_cipher_mul(
        a: &CircuitNode<Cipher<Signed>>,
        b: &CircuitNode<Cipher<Signed>>,
        ctx: &mut Context,
    ) -> (r: Result<CircuitNode<Cipher<Signed>>, Error>)
        requires
            graph_wf(old(ctx)@),
            old(ctx)@.len() < u64::MAX,
            a.wf_in(old(ctx)@.len()),
            b.wf_in(old(ctx)@.len()),
        ensures
            match r {
                Ok(out) => {
                    &&& a.ids@.len() == 1
                    &&& b.ids@.len() == 1
                    &&& out.ids@ == seq![old(ctx)@.len() as u64]
                    &&& final(ctx)@ == append_node(
                        old(ctx)@,
                        OperationV::Multiply,
                        seq![a.ids@[0], b.ids@[0]],
                    )
                    &&& final(ctx).params == old(ctx).params
                    &&& graph_wf(final(ctx)@)
                },
                Err(e) => {
                    &&& e == Error::WrongComponentCount
                    &&& !(a.ids@.len() == 1 && b.ids@.len() == 1)
                    &&& *final(ctx) == *old(ctx)
                },
            },
    {
        if a.ids.len() != 1 || b.ids.len() != 1 {
            return Err(Error::WrongComponentCount);
        }
        let n = ctx.add_multiplication(a.ids[0], b.ids[0]);
        Ok(CircuitNode::new(&[n]))
    }

    /// Multiplication of an encrypted operand by a compile-time constant:
    /// the constant is encoded, injected as a literal node, and multiplied
    /// in as a plaintext operand.
    pub fn graph_cipher_const_mul(
        a: &CircuitNode<Cipher<Signed>>,
        b: i64,
        ctx: &mut Context,
    ) -> (r: Result<CircuitNode<Cipher<Signed>>, Error>)
        requires
            graph_wf(old(ctx)@),
            old(ctx)@.len() + 1 < u64::MAX,
            old(ctx).params.wf(),
            b > i64::MIN,
            a.wf_in(old(ctx)@.len()),
        ensures
            match r {
                Ok(out) => {
                    &&& a.ids@.len() == 1
                    &&& out.ids@ == seq![(old(ctx)@.len() + 1) as u64]
                    &&& final(ctx)@ == append_node(
                        append_node(
                            old(ctx)@,
                            OperationV::Literal(
                                seq![signed_plaintext(b, old(ctx).params.plain_modulus)],
                            ),
                            seq![],
                        ),
                        OperationV::MultiplyPlaintext,
                        seq![a.ids@[0], old(ctx)@.len() as u64],
                    )
                    &&& final(ctx).params == old(ctx).params
                    &&& graph_wf(final(ctx)@)
                },
                Err(e) => {
                    &&& e == Error::WrongComponentCount
                    &&& a.ids@.len() != 1
                    &&& *final(ctx) == *old(ctx)
                },
            },
    {
        if a.ids.len() != 1 {
            return Err(Error::WrongComponentCount);
        }
        let pt = match Signed::from(b).try_into_plaintext(&ctx.params) {
            Ok(pt) => pt,
            Err(e) => {
                return Err(e);
            },
        };
        let lit = ctx.add_plaintext_literal(pt);
        let mul = ctx.add_multiplication_plaintext(a.ids[0], lit);
        Ok(CircuitNode::new(&[mul]))
    }

    /// Multiplication of an encrypted left operand by a plaintext right
    /// operand.
    pub fn graph_cipher_plain_mul(
        a: &CircuitNode<Cipher<Signed>>,
        b: &CircuitNode<Signed>,
        ctx: &mut Context,
    ) -> (r: Result<CircuitNode<Cipher<Signed>>, Error>)
        requires
            graph_wf(old(ctx)@),
            old(ctx)@.len() < u64::MAX,
            a.wf_in(old(ctx)@.len()),
            b.wf_in(old(ctx)@.len()),
        ensures
            match r {
                Ok(out) => {
                    &&& a.ids@.len() == 1
                    &&& b.ids@.len() == 1
                    &&& out.ids@ == seq![old(ctx)@.len() as u64]
                    &&& final(ctx)@ == append_node(
                        old(ctx)@,
                        OperationV::MultiplyPlaintext,
                        seq![a.ids@[0], b.ids@[0]],
                    )
                    &&& final(ctx).params == old(ctx).params
                    &&& graph_wf(final(ctx)@)
                },
                Err(e) => {
                    &&& e == Error::WrongComponentCount
                    &&& !(a.ids@.len() == 1 && b.ids@.len() == 1)
                    &&& *final(ctx) == *old(ctx)
                },
            },
    {
        if a.ids.len() != 1 || b.ids.len() != 1 {
            return Err(Error::WrongComponentCount);
        }
        let n = ctx.add_multiplication_plaintext(a.ids[0], b.ids[0]);
        Ok(CircuitNode::new(&[n]))
    }
}

/// Round trip for the compact signed codec: decoding the plaintext that
/// `try_into_plaintext` produces for any value other than the most negative
/// one — exactly as `try_from_plaintext` decodes it — yields the value back,
/// for any plaintext modulus of at least 3.
pub proof fn lemma_signed_round_trip_compact(v: i64, p: u64)
    requires
        p >= 3,
        v > i64::MIN,
    ensures
        signed_decode(signed_plaintext(v, p), p, decode_len(signed_plaintext(v, p))) == v as int,
{
    lemma_sig_bits_le_64(magnitude(v));
    assert(decode_len(signed_plaintext(v, p)) == sig_bits(magnitude(v) as nat));
    crate::encoding::lemma_signed_round_trip(v, p, sig_bits(magnitude(v) as nat));
}

impl From<i64> for Signed {
    fn from(val: i64) -> (r: Self)
        ensures
            r == (Signed { val }),
    {
        Signed { val }
    }
}

impl vstd::std_specs::convert::FromSpecImpl<i64> for Signed {
    open spec fn obeys_from_spec() -> bool {
        true
    }

    open spec fn from_spec(val: i64) -> Self {
        Signed { val }
    }
}

impl From<Signed> for i64 {
    fn from(s: Signed) -> (r: i64)
        ensures
            r == s.val,
    {
        s.val
    }
}

impl vstd::std_specs::convert::FromSpecImpl<Signed> for i64 {
    open spec fn obeys_from_spec() -> bool {
        true
    }

    open spec fn from_spec(s: Signed) -> i64 {
        s.val
    }
}

} // verus!
