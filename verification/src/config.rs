//! The engine's configuration.

use crate::amount::Amount;
use crate::schedule::ThresholdSchedule;
use vstd::prelude::*;

verus! {

/// How often an account may claim.
#[derive(Clone, Copy, Debug, PartialEq, Eq, Structural)]
pub enum Cadence {
    /// One claim, then a wait of `claim_interval_seconds`.
    Interval { claim_interval_seconds: i64 },
    /// Up to `claim_group_size` claims inside every window of
    /// `group_interval_seconds`.
    Grouped { claim_group_size: u32, group_interval_seconds: i64 },
}

/// The parameters shared by every evaluation. They are set when the engine is
/// made and replaced as a whole afterwards; no value is refused.
#[derive(Clone, Copy, Debug, PartialEq, Eq, Structural)]
pub struct ScheduleConfig {
    /// The primary reward of one claim.
    pub reward_per_claim: Amount,
    /// The rate limit on timed claims.
    pub cadence: Cadence,
    /// The bonus reward of a claim that lands on a schedule step.
    pub bonus_reward_amount: Amount,
    /// The claim count of the first schedule step.
    pub bonus_first_threshold: u32,
    /// The fixed part of the gap between two steps.
    pub bonus_fixed_increment: u32,
    /// The part of the gap that grows with the step index.
    pub bonus_growing_increment: u32,
    /// How many primary tokens are burned for one bonus token.
    pub burn_cost_for_bonus: u32,
    /// The price of a paid claim, in whole tokens of the payment currency.
    pub paid_claim_price: u32,
}

impl ScheduleConfig {
    /// The bonus schedule that the configuration describes.
    pub open spec fn schedule(self) -> ThresholdSchedule {
        ThresholdSchedule {
            first_threshold: self.bonus_first_threshold,
            fixed_increment: self.bonus_fixed_increment,
            growing_increment: self.bonus_growing_increment,
        }
    }

    /// The price of a paid claim as an amount.
    pub open spec fn price(self) -> nat {
        Amount::of_tokens(self.paid_claim_price as nat)
    }

    /// The bonus schedule that the configuration describes.
    pub fn bonus_schedule(&self) -> (s: ThresholdSchedule)
        ensures
            s == self.schedule(),
    {
        ThresholdSchedule {
            first_threshold: self.bonus_first_threshold,
            fixed_increment: self.bonus_fixed_increment,
            growing_increment: self.bonus_growing_increment,
        }
    }

    /// The price of a paid claim as an amount.
    pub fn paid_claim_amount(&self) -> (a: Amount)
        ensures
            a@ == self.price(),
    {
        Amount::from_tokens(self.paid_claim_price as u64)
    }
}

} // verus!
