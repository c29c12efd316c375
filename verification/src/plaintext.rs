use vstd::prelude::*;
use vstd::pervasive::VecAdditionalExecFns;

verus! {

/// Errors surfaced by the codec and the typed operator layer.
#[derive(Clone, Copy, Debug, PartialEq, Eq, Structural)]
pub enum Error {
    /// Decoding was handed a plaintext whose polynomial count is not the
    /// single component a scalar logical type consists of.
    WrongCiphertextCount,
    /// A typed handle's component count does not match its logical type's
    /// declared arity.
    WrongComponentCount,
}

/// One plaintext polynomial: an ordered list of coefficients, coefficient `i`
/// being the weight of `x^i`. The codec stores one bit (or its additive
/// inverse modulo the plaintext modulus) per coefficient.
#[derive(Clone, Debug, PartialEq, Eq)]
pub struct Polynomial {
    pub coefficients: Vec<u64>,
}

impl View for Polynomial {
    type V = Seq<u64>;

    open spec fn view(&self) -> Seq<u64> {
        self.coefficients@
    }
}

impl Polynomial {
    /// The zero-length polynomial.
    pub fn new() -> (r: Self)
        ensures
            r@ == Seq::<u64>::empty(),
    {
        Polynomial { coefficients: Vec::new() }
    }

    pub fn len(&self) -> (n: usize)
        ensures
            n == self@.len(),
    {
        self.coefficients.len()
    }

    /// Grows the polynomial with zero coefficients (or truncates it) so that
    /// it holds exactly `n` coefficients.
    pub fn resize(&mut self, n: usize)
        ensures
            final(self)@.len() == n,
            forall|i: int|
                0 <= i < n ==> final(self)@[i] == (if i < old(self)@.len() {
                    old(self)@[i]
                } else {
                    0u64
                }),
    {
        let mut out: Vec<u64> = Vec::new();
        let mut i: usize = 0;
        while i < n
            invariant
                self == old(self),
                i <= n,
                out@.len() == i,
                forall|j: int|
                    0 <= j < i ==> out@[j] == (if j < old(self)@.len() {
                        old(self)@[j]
                    } else {
                        0u64
                    }),
            decreases n - i,
        {
            if i < self.coefficients.len() {
                let c = self.coefficients[i];
                out.push(c);
            } else {
                out.push(0);
            }
            i += 1;
        }
        self.coefficients = out;
    }

    /// Overwrites coefficient `i`.
    pub fn set_coefficient(&mut self, i: usize, value: u64)
        requires
            i < old(self)@.len(),
        ensures
            final(self)@ == old(self)@.update(i as int, value),
    {
        self.coefficients.set(i, value);
    }

    /// Reads coefficient `i`.
    pub fn get_coefficient(&self, i: usize) -> (c: u64)
        requires
            i < self@.len(),
        ensures
            c == self@[i as int],
    {
        self.coefficients[i]
    }
}

/// A plaintext value: the ordered list of polynomials that together represent
/// one logical value. Scalar integer types use exactly one polynomial.
#[derive(Clone, Debug, PartialEq, Eq)]
pub struct Plaintext {
    pub polynomials: Vec<Polynomial>,
}

impl View for Plaintext {
    type V = Seq<Seq<u64>>;

    open spec fn view(&self) -> Seq<Seq<u64>> {
        self.polynomials@.map_values(|p: Polynomial| p@)
    }
}

impl Plaintext {
    /// Wraps a single polynomial as a one-component plaintext.
    pub fn from_polynomial(poly: Polynomial) -> (r: Self)
        ensures
            r@ == seq![poly@],
    {
        let r = Plaintext { polynomials: vec![poly] };
        proof {
            assert(r@ =~= seq![poly@]);
        }
        r
    }

    /// How many polynomial components this plaintext carries.
    pub fn num_polynomials(&self) -> (n: usize)
        ensures
            n == self@.len(),
    {
        self.polynomials.len()
    }
}

} // verus!
