use vstd::prelude::*;

use crate::circuit::CircuitNode;
use crate::context::{append_node, graph_wf, Context, OperationV};
use crate::encoding::{
    decode_len, decode_signed_poly, decode_unsigned_poly, encode_signed_poly, encode_unsigned_poly,
    magnitude, signed_decode, signed_encode, unsigned_decode, unsigned_encode,
};
use crate::params::Params;
use crate::plaintext::{Error, Plaintext};

verus! {

/// A single unsigned integer.
#[derive(Debug, Clone, Copy, PartialEq, Eq, Structural)]
pub struct Unsigned {
    pub val: u64,
}

impl Unsigned {
    /// One ring element represents one unsigned value.
    pub fn num_ciphertexts() -> (n: usize)
        ensures
            n == 1,
    {
        1
    }

    /// Encodes the value as its bit expansion over the full native width:
    /// bit `i` of the value becomes coefficient `i` of the one polynomial.
    pub fn try_into_plaintext(&self, _params: &Params) -> (r: Result<Plaintext, Error>)
        ensures
            match r {
                Ok(pt) => pt@ == seq![unsigned_encode(self.val)],
                Err(_) => false,
            },
    {
        let poly = encode_unsigned_poly(self.val);
        Ok(Plaintext::from_polynomial(poly))
    }

    /// Decodes an unsigned value as the weighted sum of the coefficients of
    /// the single polynomial, each taken verbatim. A plaintext that does not
    /// hold exactly one polynomial is rejected.
    pub fn try_from_plaintext(plaintext: &Plaintext, _params: &Params) -> (r: Result<
        Unsigned,
        Error,
    >)
        requires
            plaintext@.len() == 1 ==> unsigned_decode(plaintext@[0], decode_len(plaintext@[0]))
                <= u64::MAX,
        ensures
            match r {
                Ok(u) => plaintext@.len() == 1 && u.val == unsigned_decode(
                    plaintext@[0],
                    decode_len(plaintext@[0]),
                ),
                Err(e) => plaintext@.len() != 1 && e == Error::WrongCiphertextCount,
            },
    {
        if plaintext.num_polynomials() != 1 {
            return Err(Error::WrongCiphertextCount);
        }
        proof {
            assert(plaintext.polynomials@[0]@ == plaintext@[0]);
        }
        let val = decode_unsigned_poly(&plaintext.polynomials[0]);
        Ok(Unsigned { val })
    }
}

impl From<u64> for Unsigned {
    fn from(val: u64) -> (r: Self)
        ensures
            r == (Unsigned { val }),
    {
        Unsigned { val }
    }
}

impl vstd::std_specs::convert::FromSpecImpl<u64> for Unsigned {
    open spec fn obeys_from_spec() -> bool {
        true
    }

    open spec fn from_spec(val: u64) -> Self {
        Unsigned { val }
    }
}

impl From<Unsigned> for u64 {
    fn from(u: Unsigned) -> (r: u64)
        ensures
            r == u.val,
    {
        u.val
    }
}

impl vstd::std_specs::convert::FromSpecImpl<Unsigned> for u64 {
    open spec fn obeys_from_spec() -> bool {
        true
    }

    open spec fn from_spec(u: Unsigned) -> u64 {
        u.val
    }
}

/// A single signed integer, encoded over the full native width.
#[derive(Debug, Clone, Copy, PartialEq, Eq, Structural)]
pub struct Signed {
    pub val: i64,
}

impl Signed {
    /// One ring element represents one signed value.
    pub fn num_ciphertexts() -> (n: usize)
        ensures
            n == 1,
    {
        1
    }

    /// Encodes the value over the full native width: bit `i` of the
    /// magnitude becomes coefficient `i`, each set bit of a negative value
    /// stored as its additive inverse modulo the plaintext modulus.
    pub fn try_into_plaintext(&self, params: &Params) -> (r: Result<Plaintext, Error>)
        requires
            params.wf(),
            self.val > i64::MIN,
        ensures
            match r {
                Ok(pt) => pt@ == seq![
                    signed_encode(
                        magnitude(self.val),
                        self.val < 0,
                        params.plain_modulus,
                        64,
                    ),
                ],
                Err(_) => false,
            },
    {
        let mag: u64 = if self.val < 0 {
            (-self.val) as u64
        } else {
            self.val as u64
        };
        let poly = encode_signed_poly(mag, self.val < 0, params.plain_modulus, 64);
        Ok(Plaintext::from_polynomial(poly))
    }

    /// Decodes a signed value using the sign threshold
    /// `(plain_modulus + 1) / 2`: coefficients below it contribute
    /// positively, the rest contribute the negated distance to the
    /// plaintext modulus. A plaintext that does not hold exactly one
    /// polynomial is rejected.
    pub fn try_from_plaintext(plaintext: &Plaintext, params: &Params) -> (r: Result<Signed, Error>)
        requires
            params.wf(),
            params.plain_modulus < u64::MAX,
            plaintext@.len() == 1 ==> {
                &&& forall|j: int|
                    0 <= j < decode_len(plaintext@[0]) ==> #[trigger] plaintext@[0][j]
                        <= params.plain_modulus
                &&& i64::MIN <= signed_decode(
                    plaintext@[0],
                    params.plain_modulus,
                    decode_len(plaintext@[0]),
                ) <= i64::MAX
            },
        ensures
            match r {
                Ok(s) => plaintext@.len() == 1 && s.val == signed_decode(
                    plaintext@[0],
                    params.plain_modulus,
                    decode_len(plaintext@[0]),
                ),
                Err(e) => plaintext@.len() != 1 && e == Error::WrongCiphertextCount,
            },
    {
        if plaintext.num_polynomials() != 1 {
            return Err(Error::WrongCiphertextCount);
        }
        proof {
            assert(plaintext.polynomials@[0]@ == plaintext@[0]);
        }
        let val = decode_signed_poly(&plaintext.polynomials[0], params.plain_modulus);
        Ok(Signed { val })
    }
}

/// Round trip for the full-width signed codec: decoding the plaintext that
/// `Signed::try_into_plaintext` produces for any value other than the most
/// negative one — exactly as `Signed::try_from_plaintext` decodes it —
/// yields the value back, for any plaintext modulus of at least 3.
pub proof fn lemma_signed_round_trip_full(v: i64, p: u64)
    requires
        p >= 3,
        v > i64::MIN,
    ensures
        ({
            let enc = signed_encode(magnitude(v), v < 0, p, 64);
            signed_decode(enc, p, decode_len(enc)) == v as int
        }),
{
    crate::encoding::lemma_sig_bits_le_64(magnitude(v));
    assert(decode_len(signed_encode(magnitude(v), v < 0, p, 64)) == 64);
    crate::encoding::lemma_signed_round_trip(v, p, 64);
}

impl From<i64> for Signed {
    fn from(val: i64) -> (r: Self)
        ensures
            r == (Signed { val }),
    {
        Signed { val }
    }
}

impl vstd::std_specs::convert::FromSpecImpl<i64> for Signed {
    open spec fn obeys_from_spec() -> bool {
        true
    }

    open spec fn from_spec(val: i64) -> Self {
        Signed { val }
    }
}

impl CircuitNode<Unsigned> {
    /// The plaintext modulus of the parameter set the circuit is being
    /// compiled for.
    pub fn get_plain_modulus(ctx: &Context) -> (r: u64)
        ensures
            r == ctx.params.plain_modulus,
    {
        ctx.params.plain_modulus
    }

    /// Appends an addition of the two handles' nodes and returns the handle
    /// of the sum.
    pub fn add(&self, other: &Self, ctx: &mut Context) -> (r: Result<Self, Error>)
        requires
            graph_wf(old(ctx)@),
            old(ctx)@.len() < u64::MAX,
            self.wf_in(old(ctx)@.len()),
            other.wf_in(old(ctx)@.len()),
        ensures
            match r {
                Ok(out) => {
                    &&& self.ids@.len() == 1
                    &&& other.ids@.len() == 1
                    &&& out.ids@ == seq![old(ctx)@.len() as u64]
                    &&& final(ctx)@ == append_node(
                        old(ctx)@,
                        OperationV::Add,
                        seq![self.ids@[0], other.ids@[0]],
                    )
                    &&& final(ctx).params == old(ctx).params
                    &&& graph_wf(final(ctx)@)
                },
                Err(e) => {
                    &&& e == Error::WrongComponentCount
                    &&& !(self.ids@.len() == 1 && other.ids@.len() == 1)
                    &&& *final(ctx) == *old(ctx)
                },
            },
    {
        if self.ids.len() != 1 || other.ids.len() != 1 {
            return Err(Error::WrongComponentCount);
        }
        let n = ctx.add_addition(self.ids[0], other.ids[0]);
        Ok(CircuitNode::new(&[n]))
    }

    /// Appends a multiplication of the two handles' nodes and returns the
    /// handle of the product.
    pub fn mul(&self, other: &Self, ctx: &mut Context) -> (r: Result<Self, Error>)
        requires
            graph_wf(old(ctx)@),
            old(ctx)@.len() < u64::MAX,
            self.wf_in(old(ctx)@.len()),
            other.wf_in(old(ctx)@.len()),
        ensures
            match r {
                Ok(out) => {
                    &&& self.ids@.len() == 1
                    &&& other.ids@.len() == 1
                    &&& out.ids@ == seq![old(ctx)@.len() as u64]
                    &&& final(ctx)@ == append_node(
                        old(ctx)@,
                        OperationV::Multiply,
                        seq![self.ids@[0], other.ids@[0]],
                    )
                    &&& final(ctx).params == old(ctx).params
                    &&& graph_wf(final(ctx)@)
                },
                Err(e) => {
                    &&& e == Error::WrongComponentCount
                    &&& !(self.ids@.len() == 1 && other.ids@.len() == 1)
                    &&& *final(ctx) == *old(ctx)
                },
            },
    {
        if self.ids.len() != 1 || other.ids.len() != 1 {
            return Err(Error::WrongComponentCount);
        }
        let n = ctx.add_multiplication(self.ids[0], other.ids[0]);
        Ok(CircuitNode::new(&[n]))
    }
}

impl CircuitNode<Signed> {
    /// The plaintext modulus of the parameter set the circuit is being
    /// compiled for.
    pub fn get_plain_modulus(ctx: &Context) -> (r: u64)
        ensures
            r == ctx.params.plain_modulus,
    {
        ctx.params.plain_modulus
    }
}

} // verus!

