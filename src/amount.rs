use vstd::prelude::*;

verus! {

/// Number of attos in one token.
pub const ATTOS_PER_TOKEN: u128 = 1_000_000_000_000_000_000;

/// A non-negative token amount, counted in attos (10^-18 of a token).
#[derive(Clone, Copy, Debug, PartialEq, Eq, Structural, PartialOrd, Ord, Hash, Default)]
pub struct Amount {
    pub attos: u128,
}

/// `a * b`, capped at the largest representable amount.
pub open spec fn sat_mul(a: nat, b: nat) -> nat {
    if a * b > u128::MAX { u128::MAX as nat } else { a * b }
}

/// `a + b`, capped at the largest representable amount.
pub open spec fn sat_add(a: nat, b: nat) -> nat {
    if a + b > u128::MAX { u128::MAX as nat } else { a + b }
}

/// `a - b`, floored at zero.
pub open spec fn sat_sub(a: nat, b: nat) -> nat {
    if a >= b { (a - b) as nat } else { 0 }
}

impl Amount {
    pub fn zero() -> (r: Amount)
        ensures
            r.attos == 0,
    {
        Amount { attos: 0 }
    }

    /// One whole token.
    pub fn one() -> (r: Amount)
        ensures
            r.attos == ATTOS_PER_TOKEN,
    {
        Amount { attos: ATTOS_PER_TOKEN }
    }

    /// The largest representable amount.
    pub fn max_value() -> (r: Amount)
        ensures
            r.attos == u128::MAX,
    {
        Amount { attos: u128::MAX }
    }

    pub fn from_attos(attos: u128) -> (r: Amount)
        ensures
            r.attos == attos,
    {
        Amount { attos }
    }

    /// `tokens` whole tokens, capped at the largest representable amount.
    pub fn from_tokens(tokens: u128) -> (r: Amount)
        ensures
            r.attos == sat_mul(tokens as nat, ATTOS_PER_TOKEN as nat),
    {
        match tokens.checked_mul(ATTOS_PER_TOKEN) {
            Some(v) => Amount { attos: v },
            None => Amount { attos: u128::MAX },
        }
    }

    pub fn is_zero(&self) -> (r: bool)
        ensures
            r == (self.attos == 0),
    {
        self.attos == 0
    }

    pub fn saturating_add(self, other: Amount) -> (r: Amount)
        ensures
            r.attos == sat_add(self.attos as nat, other.attos as nat),
    {
        Amount { attos: self.attos.saturating_add(other.attos) }
    }

    pub fn saturating_sub(self, other: Amount) -> (r: Amount)
        ensures
            r.attos == sat_sub(self.attos as nat, other.attos as nat),
    {
        Amount { attos: self.attos.saturating_sub(other.attos) }
    }

    pub fn saturating_mul(self, factor: u128) -> (r: Amount)
        ensures
            r.attos == sat_mul(self.attos as nat, factor as nat),
    {
        match self.attos.checked_mul(factor) {
            Some(v) => Amount { attos: v },
            None => Amount { attos: u128::MAX },
        }
    }

    /// `self * factor`, or `None` where it does not fit.
    pub fn try_mul(self, factor: u128) -> (r: Option<Amount>)
        ensures
            self.attos * factor <= u128::MAX ==> r == Some(Amount { attos: (self.attos * factor) as u128 }),
            self.attos * factor > u128::MAX ==> r is None,
    {
        match self.attos.checked_mul(factor) {
            Some(v) => Some(Amount { attos: v }),
            None => None,
        }
    }

    /// The whole number of times `other` fits into `self` (`u128::MAX` for a zero divisor).
    pub fn saturating_div(self, other: Amount) -> (r: u128)
        ensures
            other.attos > 0 ==> r == self.attos / other.attos,
            other.attos == 0 ==> r == u128::MAX,
    {
        if other.attos == 0 {
            u128::MAX
        } else {
            self.attos / other.attos
        }
    }
}

} // verus!
