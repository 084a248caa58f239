//! Fixed-point decimal amounts, held as the two integers that a 96-bit decimal
//! is made of: a signed mantissa and a power-of-ten scale.

use vstd::arithmetic::power::{lemma_pow_positive, pow};
use vstd::prelude::*;

verus! {

/// The largest scale of a decimal: the number of digits after the point.
pub const MAX_SCALE: u32 = 28;

/// The largest magnitude of a mantissa: 2^96 - 1.
pub const MAX_MANTISSA: i128 = 79_228_162_514_264_337_593_543_950_335;

/// A signed decimal number `mantissa / 10^scale`.
///
/// Every value of this type is a valid 96-bit decimal: the scale is at most
/// [`MAX_SCALE`] and the mantissa lies within `-MAX_MANTISSA ..= MAX_MANTISSA`.
#[derive(Clone, Copy, Debug)]
pub struct Amount {
    pub(crate) mantissa: i128,
    pub(crate) scale: u32,
}

impl Amount {
    #[verifier::type_invariant]
    spec fn valid(self) -> bool {
        Self::representable(self.mantissa as int, self.scale as int)
    }

    /// Whether `mantissa / 10^scale` is a decimal that this type can hold.
    pub open spec fn representable(mantissa: int, scale: int) -> bool {
        &&& 0 <= scale <= MAX_SCALE
        &&& -MAX_MANTISSA <= mantissa <= MAX_MANTISSA
    }

    /// The mantissa: the digits of the number as a signed integer.
    pub closed spec fn spec_mantissa(&self) -> i128 {
        self.mantissa
    }

    /// The scale: how many of the digits stand after the point.
    pub closed spec fn spec_scale(&self) -> u32 {
        self.scale
    }

    /// The number in units of `10^-28`, the finest step any amount can have.
    /// Two amounts denote the same number exactly when their units agree.
    pub open spec fn units(self) -> int {
        self.mantissa() * pow(10, (MAX_SCALE - self.scale()) as nat)
    }

    /// The amount `mantissa / 10^scale`, or `None` where no decimal holds it.
    pub fn new(mantissa: i128, scale: u32) -> (r: Option<Amount>)
        ensures
            r is Some <==> Self::representable(mantissa as int, scale as int),
            r matches Some(a) ==> a.mantissa() == mantissa && a.scale() == scale,
    {
        if scale <= MAX_SCALE && -MAX_MANTISSA <= mantissa && mantissa <= MAX_MANTISSA {
            Some(Amount { mantissa, scale })
        } else {
            None
        }
    }

    /// Zero, with scale 0.
    pub closed spec fn spec_zero() -> Amount {
        Amount { mantissa: 0, scale: 0 }
    }

    /// Zero, with scale 0.
    #[verifier::when_used_as_spec(spec_zero)]
    pub fn zero() -> (r: Amount)
        ensures
            r == Amount::zero(),
            r.mantissa() == 0,
            r.scale() == 0,
            r.units() == 0,
    {
        Amount { mantissa: 0, scale: 0 }
    }

    #[verifier::when_used_as_spec(spec_mantissa)]
    pub fn mantissa(&self) -> (m: i128)
        ensures
            m == self.mantissa(),
            Self::representable(m as int, self.scale() as int),
    {
        proof {
            use_type_invariant(self);
        }
        self.mantissa
    }

    #[verifier::when_used_as_spec(spec_scale)]
    pub fn scale(&self) -> (s: u32)
        ensures
            s == self.scale(),
            Self::representable(self.mantissa() as int, s as int),
    {
        proof {
            use_type_invariant(self);
        }
        self.scale
    }

    /// Whether the number is below zero.
    pub open spec fn spec_is_negative(&self) -> bool {
        self.units() < 0
    }

    #[verifier::when_used_as_spec(spec_is_negative)]
    pub fn is_negative(&self) -> (b: bool)
        ensures
            b == self.is_negative(),
    {
        proof {
            self.sign_of_units();
        }
        self.mantissa < 0
    }

    /// Whether this number is strictly greater than `other`.
    pub open spec fn exceeds(self, other: Amount) -> bool {
        self.units() > other.units()
    }

    /// The same magnitude with the opposite sign, at the same scale.
    pub closed spec fn spec_negated(self) -> Amount {
        Amount { mantissa: (-self.mantissa) as i128, scale: self.scale }
    }

    /// The same magnitude with the opposite sign, at the same scale.
    #[verifier::when_used_as_spec(spec_negated)]
    pub fn negated(self) -> (r: Amount)
        ensures
            r == self.negated(),
            r.mantissa() == -self.mantissa(),
            r.scale() == self.scale(),
            r.units() == -self.units(),
    {
        proof {
            use_type_invariant(self);
            self.negation_mirrors();
        }
        Amount { mantissa: -self.mantissa, scale: self.scale }
    }

    /// The sign of the units is the sign of the mantissa.
    pub proof fn sign_of_units(self)
        ensures
            (self.units() < 0) == (self.mantissa() < 0),
            (self.units() == 0) == (self.mantissa() == 0),
    {
        let p = pow(10, (MAX_SCALE - self.scale()) as nat);
        lemma_pow_positive(10, (MAX_SCALE - self.scale()) as nat);
        let m = self.mantissa() as int;
        assert((m * p < 0) == (m < 0) && (m * p == 0) == (m == 0)) by (nonlinear_arith)
            requires
                p > 0,
        ;
    }

    /// Negating an amount of this type negates its mantissa and its units
    /// and keeps its scale.
    pub proof fn negation_mirrors(self)
        requires
            Self::representable(self.mantissa() as int, self.scale() as int),
        ensures
            self.negated().mantissa() == -self.mantissa(),
            self.negated().scale() == self.scale(),
            self.negated().units() == -self.units(),
    {
        let p = pow(10, (MAX_SCALE - self.scale()) as nat);
        let m = self.mantissa() as int;
        assert((-m) * p == -(m * p)) by (nonlinear_arith);
    }
}

} // verus!
