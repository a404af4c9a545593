//! What the engine reports of an operation that succeeded.
//!
//! The engine sends nothing itself. It turns a receipt into the events that
//! the runtime hands to whoever observes the engine, in the order in which
//! they are to be sent.

use crate::amount::Amount;
use crate::claim_policy::ClaimReceipt;
use crate::redemption_policy::BurnReceipt;
use vstd::prelude::*;

verus! {

/// One report.
#[derive(Clone, Copy, Debug, PartialEq, Eq, Structural)]
pub enum Event {
    /// A claim was counted and its primary reward is issued.
    RewardClaimed { identity: u64, amount: Amount, claims: u64 },
    /// A claim landed on the schedule step `step_index` and its bonus is
    /// issued.
    BonusClaimed { identity: u64, amount: Amount, step_index: u64, bonus_total: u64 },
    /// A burn completed the cost of a bonus and the bonus is issued.
    BonusRedeemed { identity: u64, amount: Amount, bonus_total: u64 },
    /// A credential was delivered and its identity is registered.
    CredentialIssued { identity: u64 },
}

/// The events of a counted claim, timed or paid: the reward, then the bonus
/// where there is one.
pub open spec fn claim_events_of(identity: u64, receipt: ClaimReceipt) -> Seq<Event> {
    let reward = Event::RewardClaimed {
        identity,
        amount: receipt.primary_reward,
        claims: receipt.claims,
    };
    match receipt.bonus {
        Some(bonus) => seq![
            reward,
            Event::BonusClaimed {
                identity,
                amount: bonus.amount,
                step_index: bonus.step_index,
                bonus_total: bonus.bonus_total,
            },
        ],
        None => seq![reward],
    }
}

/// The events of a burn: the bonus where there is one, else none.
pub open spec fn burn_events_of(identity: u64, receipt: BurnReceipt) -> Seq<Event> {
    match receipt.bonus {
        Some(bonus) => seq![
            Event::BonusRedeemed { identity, amount: bonus.amount, bonus_total: bonus.bonus_total },
        ],
        None => Seq::<Event>::empty(),
    }
}

/// The events of a batch: one for every identifier issued, in their order.
pub open spec fn issuance_events_of(issued: Seq<u64>) -> Seq<Event> {
    Seq::new(issued.len(), |i: int| Event::CredentialIssued { identity: issued[i] })
}

/// The events of a counted claim, timed or paid.
pub fn claim_events(identity: u64, receipt: &ClaimReceipt) -> (events: Vec<Event>)
    ensures
        events@ == claim_events_of(identity, *receipt),
{
    let mut events: Vec<Event> = Vec::new();
    events.push(
        Event::RewardClaimed { identity, amount: receipt.primary_reward, claims: receipt.claims },
    );
    if let Some(bonus) = receipt.bonus {
        events.push(
            Event::BonusClaimed {
                identity,
                amount: bonus.amount,
                step_index: bonus.step_index,
                bonus_total: bonus.bonus_total,
            },
        );
    }
    events
}

/// The events of a burn.
pub fn burn_events(identity: u64, receipt: &BurnReceipt) -> (events: Vec<Event>)
    ensures
        events@ == burn_events_of(identity, *receipt),
{
    let mut events: Vec<Event> = Vec::new();
    if let Some(bonus) = receipt.bonus {
        events.push(
            Event::BonusRedeemed { identity, amount: bonus.amount, bonus_total: bonus.bonus_total },
        );
    }
    events
}

/// The events of a batch of which `issued` are the identifiers issued.
pub fn issuance_events(issued: &Vec<u64>) -> (events: Vec<Event>)
    ensures
        events@ == issuance_events_of(issued@),
{
    let mut events: Vec<Event> = Vec::new();
    let mut i: usize = 0;
    while i < issued.len()
        invariant
            i <= issued.len(),
            events@ == issuance_events_of(issued@.take(i as int)),
        decreases issued.len() - i,
    {
        events.push(Event::CredentialIssued { identity: issued[i] });
        i = i + 1;
    }
    proof {
        assert(issued@.take(issued.len() as int) =~= issued@);
    }
    events
}

} // verus!
