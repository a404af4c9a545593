//! Token amounts.
//!
//! An amount counts indivisible subunits, of which a whole token has
//! `SUBUNITS_PER_TOKEN`, so that fractions of a token are exact.

use vstd::prelude::*;

verus! {

/// The number of subunits in one whole token.
pub const SUBUNITS_PER_TOKEN: u128 = 1_000_000_000_000_000_000;

/// An amount of one kind of token.
#[derive(Clone, Copy, Debug, PartialEq, Eq, Structural)]
pub struct Amount {
    /// The amount in subunits.
    pub subunits: u128,
}

impl View for Amount {
    type V = nat;

    /// The amount as a number of subunits.
    open spec fn view(&self) -> nat {
        self.subunits as nat
    }
}

impl Amount {
    /// The amount of `tokens` whole tokens.
    pub open spec fn of_tokens(tokens: nat) -> nat {
        tokens * (SUBUNITS_PER_TOKEN as nat)
    }

    /// Nothing.
    pub fn zero() -> (a: Amount)
        ensures
            a@ == 0,
    {
        Amount { subunits: 0 }
    }

    /// An amount given in subunits.
    pub fn from_subunits(subunits: u128) -> (a: Amount)
        ensures
            a@ == subunits,
    {
        Amount { subunits }
    }

    /// An amount given in whole tokens.
    pub fn from_tokens(tokens: u64) -> (a: Amount)
        ensures
            a@ == Amount::of_tokens(tokens as nat),
    {
        assert((tokens as u128) * SUBUNITS_PER_TOKEN <= 0xffff_ffff_ffff_ffff
            * 1_000_000_000_000_000_000) by (nonlinear_arith)
            requires
                tokens <= 0xffff_ffff_ffff_ffff,
                SUBUNITS_PER_TOKEN == 1_000_000_000_000_000_000,
        ;
        Amount { subunits: (tokens as u128) * SUBUNITS_PER_TOKEN }
    }

    /// Whether this amount is at least `other`.
    pub fn covers(&self, other: Amount) -> (b: bool)
        ensures
            b == (self@ >= other@),
    {
        self.subunits >= other.subunits
    }

    /// What is left of this amount once `other` is taken from it, or `None`
    /// where it holds less than `other`.
    pub fn take(&self, other: Amount) -> (rest: Option<Amount>)
        ensures
            self@ >= other@ ==> rest.is_some() && rest.unwrap()@ == self@ - other@,
            self@ < other@ ==> rest.is_none(),
    {
        if self.subunits >= other.subunits {
            Some(Amount { subunits: self.subunits - other.subunits })
        } else {
            None
        }
    }
}

} // verus!
