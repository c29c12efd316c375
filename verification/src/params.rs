use vstd::prelude::*;

verus! {

/// Identifies the homomorphic scheme a parameter set was generated for.
#[derive(Clone, Copy, Debug, PartialEq, Eq, Structural)]
pub enum SchemeType {
    Bfv,
}

/// Lattice security level the parameters were chosen to meet.
#[derive(Clone, Copy, Debug, PartialEq, Eq, Structural)]
pub enum SecurityLevel {
    Tc128,
    Tc192,
    Tc256,
}

/// Immutable scheme parameters: ring (lattice) dimension, the ordered list of
/// coefficient moduli, the plaintext modulus, the scheme identity, and the
/// security level. Constructed once per compilation and never mutated.
#[derive(Clone, Debug, PartialEq, Eq)]
pub struct Params {
    pub lattice_dimension: u64,
    pub coeff_modulus: Vec<u64>,
    pub plain_modulus: u64,
    pub scheme_type: SchemeType,
    pub security_level: SecurityLevel,
}

impl Params {
    /// A usable parameter set has a plaintext modulus of at least two: the
    /// codec stores bits (and their additive inverses) as coefficients
    /// modulo this value.
    pub open spec fn wf(&self) -> bool {
        self.plain_modulus >= 2
    }
}

} // verus!
