//! Operands as IEEE 754 binary64 bit patterns.
//!
//! The evaluator never does arithmetic on an operand; it only has to know
//! whether one is a zero. A bit pattern answers that exactly, so an operand is
//! carried as the 64 bits of its binary64 encoding: one sign bit, eleven
//! exponent bits, fifty-two fraction bits.

use vstd::prelude::*;
use crate::error::{outcome, ErrorKind, ErrorView};

verus! {

/// The sign bit of a binary64 pattern. Alone it is the negative zero.
pub const SIGN_MASK: u64 = 0x8000_0000_0000_0000;

/// Everything but the sign bit of a binary64 pattern.
pub const MAGNITUDE_MASK: u64 = 0x7fff_ffff_ffff_ffff;

/// One of the two numbers of a request.
#[derive(Clone, Copy, Debug, PartialEq, Eq, Structural)]
pub struct Operand {
    pub bits: u64,
}

impl Operand {
    /// The eleven exponent bits.
    pub open spec fn exponent(self) -> u64 {
        (self.bits >> 52) & 0x7ff
    }

    /// The fifty-two fraction bits.
    pub open spec fn fraction(self) -> u64 {
        self.bits & 0x000f_ffff_ffff_ffff
    }

    /// An operand is a zero when it is the positive or the negative zero.
    /// The comparison is exact: the smallest subnormal is no zero, and
    /// neither is a NaN.
    pub open spec fn spec_is_zero(self) -> bool {
        self.bits == 0 || self.bits == SIGN_MASK
    }

    /// What reading an operand token gives, where `parsed` is the pattern of
    /// the number that the token denotes, if it denotes one.
    pub open spec fn spec_from_parsed(token: Seq<char>, parsed: Option<u64>) -> Result<
        Operand,
        ErrorView,
    > {
        match parsed {
            Some(bits) => Ok(Operand { bits }),
            None => Err(ErrorView::ParseError(token)),
        }
    }

    /// The operand with the given pattern.
    pub fn from_bits(bits: u64) -> (operand: Operand)
        ensures
            operand == (Operand { bits }),
    {
        Operand { bits }
    }

    /// The pattern of the operand.
    pub fn to_bits(self) -> (bits: u64)
        ensures
            bits == self.bits,
    {
        self.bits
    }

    /// Whether the operand is a zero, of either sign.
    #[verifier::when_used_as_spec(spec_is_zero)]
    pub fn is_zero(self) -> (zero: bool)
        ensures
            zero == self.spec_is_zero(),
    {
        let bits = self.bits;
        assert((bits & MAGNITUDE_MASK == 0) <==> (bits == 0 || bits == SIGN_MASK)) by (bit_vector);
        bits & MAGNITUDE_MASK == 0
    }

    /// Turns the outcome of reading an operand token into an operand, or
    /// into the error that names the token.
    pub fn from_parsed(token: &str, parsed: Option<u64>) -> (r: Result<Operand, ErrorKind>)
        ensures
            outcome(r) == Self::spec_from_parsed(token@, parsed),
    {
        match parsed {
            Some(bits) => Ok(Operand { bits }),
            None => Err(ErrorKind::ParseError(token.to_owned())),
        }
    }
}

/// The zeros are the patterns whose exponent and fraction are both zero,
/// whatever the sign.
pub proof fn lemma_zero_fields(operand: Operand)
    ensures
        operand.is_zero() <==> operand.exponent() == 0 && operand.fraction() == 0,
{
    let bits = operand.bits;
    assert((bits == 0 || bits == SIGN_MASK) <==> (((bits >> 52) & 0x7ff) == 0 && (bits
        & 0x000f_ffff_ffff_ffff) == 0)) by (bit_vector);
}

} // verus!
