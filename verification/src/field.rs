//! Prime-field scalars for the step circuits.
//!
//! Field elements are residues modulo the 64-bit prime
//! `2^64 - 2^32 + 1`, held in canonical (fully reduced) form.

use vstd::prelude::*;

verus! {

/// The field modulus: the prime `2^64 - 2^32 + 1`.
pub const MODULUS: u64 = 0xffff_ffff_0000_0001;

/// One field element, in canonical form (`value < MODULUS`).
#[derive(Clone, Copy, Debug, PartialEq, Eq, Structural)]
pub struct Fp {
    pub value: u64,
}

impl Fp {
    /// Canonical form: the residue is fully reduced.
    pub open spec fn wf(self) -> bool {
        self.value < MODULUS
    }
}

/// The field sum of two canonical residues.
pub open spec fn fp_add(a: Fp, b: Fp) -> Fp {
    Fp { value: ((a.value + b.value) % (MODULUS as int)) as u64 }
}

/// Twice a canonical residue: the sum of the element with itself.
pub open spec fn fp_double(a: Fp) -> Fp {
    fp_add(a, a)
}

/// The additive identity.
pub fn fp_zero() -> (r: Fp)
    ensures
        r.wf(),
        r.value == 0,
{
    Fp { value: 0 }
}

/// The multiplicative identity.
pub fn fp_one() -> (r: Fp)
    ensures
        r.wf(),
        r.value == 1,
{
    Fp { value: 1 }
}

/// Reduces an arbitrary machine word into the field.
pub fn fp_from_u64(n: u64) -> (r: Fp)
    ensures
        r.wf(),
        r.value == n % MODULUS,
{
    Fp { value: n % MODULUS }
}

impl Fp {
    /// Field addition; the result is canonical whatever form the operands
    /// are in.
    pub fn add(self, other: Fp) -> (r: Fp)
        ensures
            r == fp_add(self, other),
            r.wf(),
    {
        let wide: u128 = self.value as u128 + other.value as u128;
        let reduced: u128 = wide % (MODULUS as u128);
        Fp { value: reduced as u64 }
    }

    /// Field doubling: the element added to itself.
    pub fn double(self) -> (r: Fp)
        ensures
            r == fp_double(self),
            r.wf(),
    {
        self.add(self)
    }
}

} // verus!
