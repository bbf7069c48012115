//! Rounding policies and their encoding on the wire.

use vstd::prelude::*;

verus! {

/// The integer type in which a rounding policy crosses the ABI.
pub type Discriminant = cty::c_uint;

/// The rounding policy an operation is carried out under.
#[derive(Debug, Clone, Copy, PartialEq, Eq, Structural)]
pub enum RoundingMode {
    /// Round to the nearest representable value.
    ToNearest,
    /// Round toward zero.
    TowardZero,
    /// Round toward positive infinity.
    Upward,
    /// Round toward negative infinity.
    Downward,
}

impl RoundingMode {
    /// The code that stands for this policy on the wire.
    pub open spec fn spec_discriminant(self) -> Discriminant {
        match self {
            RoundingMode::ToNearest => 0,
            RoundingMode::TowardZero => 1,
            RoundingMode::Upward => 2,
            RoundingMode::Downward => 3,
        }
    }

    /// Encodes the policy as the code the engine expects.
    #[verifier::when_used_as_spec(spec_discriminant)]
    pub fn discriminant(self) -> (code: Discriminant)
        ensures
            code == self.spec_discriminant(),
            code <= 3,
    {
        match self {
            RoundingMode::ToNearest => 0,
            RoundingMode::TowardZero => 1,
            RoundingMode::Upward => 2,
            RoundingMode::Downward => 3,
        }
    }
}

/// The four codes are the numbers zero to three, one for each policy: no two
/// policies share a code.
pub proof fn lemma_discriminant_is_injective(first: RoundingMode, second: RoundingMode)
    ensures
        first.discriminant() <= 3,
        first.discriminant() == second.discriminant() <==> first == second,
{
}

} // verus!
