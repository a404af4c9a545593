//! Issuing credentials in batches.
//!
//! A batch names its recipients in order. Recipient `i` is offered the
//! credential with the identifier `first + i`, where `first` is the engine's
//! counter when the batch starts. A recipient may turn the delivery down: its
//! credential is destroyed, its identifier stays unused for good, and the
//! batch goes on. Every delivery that was accepted registers its identifier.

use crate::account::{record_or_fresh, AccountRecord};
use vstd::prelude::*;

verus! {

/// The identifiers of the deliveries that were accepted, in the order of the
/// batch. `deliveries[i]` tells whether recipient `i` accepted.
pub open spec fn issued_identifiers(first: nat, deliveries: Seq<bool>) -> Seq<u64>
    decreases deliveries.len(),
{
    if deliveries.len() == 0 {
        Seq::<u64>::empty()
    } else {
        let before = issued_identifiers(first, deliveries.drop_last());
        if deliveries.last() {
            before.push((first + deliveries.len() - 1) as u64)
        } else {
            before
        }
    }
}

/// `identity` was offered in the batch and accepted.
pub open spec fn is_issued(first: nat, deliveries: Seq<bool>, identity: u64) -> bool {
    first <= identity < first + deliveries.len() && deliveries[identity - first]
}

/// The records after a batch: a fresh record for every issued identifier that
/// had none, and every other record as it was.
pub open spec fn records_after_issue(
    records: Map<u64, AccountRecord>,
    first: nat,
    deliveries: Seq<bool>,
) -> Map<u64, AccountRecord> {
    Map::new(
        |identity: u64| records.contains_key(identity) || is_issued(first, deliveries, identity),
        |identity: u64| record_or_fresh(records, identity),
    )
}

} // verus!
