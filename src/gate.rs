use vstd::prelude::*;

verus! {

/// The sign bit of an IEEE-754 double.
pub const SIGN_BIT: u64 = 0x8000_0000_0000_0000;

/// A complex number whose parts are kept as the bit patterns of IEEE-754 doubles.
/// Swapping the parts and negating one (a flip of its sign bit) are exact on this
/// form, so the Pauli gates are computed here bit for bit.
#[derive(Clone, Copy, Debug, PartialEq, Eq, Structural)]
pub struct ComplexBits {
    pub re: u64,
    pub im: u64,
}

/// The Pauli-X gate: `a + bi` becomes `b + ai`.
pub fn pauli_x(z: ComplexBits) -> (r: ComplexBits)
    ensures
        r == (ComplexBits { re: z.im, im: z.re }),
{
    ComplexBits { re: z.im, im: z.re }
}

/// The Pauli-Y gate: `a + bi` becomes `-b + ai`.
pub fn pauli_y(z: ComplexBits) -> (r: ComplexBits)
    ensures
        r == (ComplexBits { re: z.im ^ SIGN_BIT, im: z.re }),
{
    ComplexBits { re: z.im ^ SIGN_BIT, im: z.re }
}

} // verus!
