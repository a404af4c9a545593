//! Account records and the ledger that keeps them.

use crate::error::EngineError;
use crate::schedule::MAX_CLAIMS;
use std::collections::HashMap;
use vstd::prelude::*;

verus! {

/// What the engine knows of one credential identity.
#[derive(Clone, Copy, Debug, PartialEq, Eq, Structural)]
pub struct AccountRecord {
    /// The number of successful claims, timed and paid.
    pub claims: u64,
    /// The number of claims made in the current window.
    pub claims_in_current_group: u32,
    /// The primary tokens burned since the last bonus earned by burning.
    pub burned_count: u32,
    /// The bonuses earned by claiming.
    pub bonus_free_count: u32,
    /// The bonuses earned by burning.
    pub bonus_paid_count: u32,
}

impl AccountRecord {
    /// The record of an account that has done nothing yet.
    pub open spec fn fresh() -> AccountRecord {
        AccountRecord {
            claims: 0,
            claims_in_current_group: 0,
            burned_count: 0,
            bonus_free_count: 0,
            bonus_paid_count: 0,
        }
    }

    /// The counters that a claim advances have room for one more.
    pub open spec fn can_claim(self) -> bool {
        self.claims < MAX_CLAIMS && self.bonus_free_count < u32::MAX
    }

    /// The counter that a bonus earned by burning advances has room for one
    /// more.
    pub open spec fn can_burn(self) -> bool {
        self.bonus_paid_count < u32::MAX
    }

    /// The number of bonuses earned on both paths.
    pub open spec fn bonus_total(self) -> nat {
        (self.bonus_free_count + self.bonus_paid_count) as nat
    }

    /// The record of an account that has done nothing yet.
    pub fn new() -> (r: AccountRecord)
        ensures
            r == AccountRecord::fresh(),
    {
        AccountRecord {
            claims: 0,
            claims_in_current_group: 0,
            burned_count: 0,
            bonus_free_count: 0,
            bonus_paid_count: 0,
        }
    }

    /// Whether a claim can be counted on this record.
    pub fn has_room_for_claim(&self) -> (b: bool)
        ensures
            b == self.can_claim(),
    {
        self.claims < MAX_CLAIMS && self.bonus_free_count < u32::MAX
    }

    /// Whether a bonus earned by burning can be counted on this record.
    pub fn has_room_for_burn(&self) -> (b: bool)
        ensures
            b == self.can_burn(),
    {
        self.bonus_paid_count < u32::MAX
    }

    /// The number of bonuses earned on both paths.
    pub fn total_bonuses(&self) -> (n: u64)
        ensures
            n == self.bonus_total(),
    {
        self.bonus_free_count as u64 + self.bonus_paid_count as u64
    }
}

/// What the ledger does with an identity it has no record of.
#[derive(Clone, Copy, Debug, PartialEq, Eq, Structural)]
pub enum RegistrationMode {
    /// The first sight of an identity creates its record.
    Bootstrap,
    /// A record exists only once the identity was registered.
    PreRegistered,
}

/// The record that stands for `identity` in `records`: its own, or a fresh one
/// where it has none.
pub open spec fn record_or_fresh(records: Map<u64, AccountRecord>, identity: u64) -> AccountRecord {
    if records.contains_key(identity) {
        records[identity]
    } else {
        AccountRecord::fresh()
    }
}

/// What a look-up of `identity` gives.
pub open spec fn looked_up(
    records: Map<u64, AccountRecord>,
    mode: RegistrationMode,
    identity: u64,
) -> Result<AccountRecord, EngineError> {
    if records.contains_key(identity) {
        Ok(records[identity])
    } else if mode == RegistrationMode::Bootstrap {
        Ok(AccountRecord::fresh())
    } else {
        Err(EngineError::UnknownAccount)
    }
}

/// `records` with a fresh record for `identity` where it had none.
pub open spec fn registered(records: Map<u64, AccountRecord>, identity: u64) -> Map<
    u64,
    AccountRecord,
> {
    if records.contains_key(identity) {
        records
    } else {
        records.insert(identity, AccountRecord::fresh())
    }
}

/// One record per credential identity. A record is created once and replaced
/// as a whole afterwards; none is ever removed.
pub struct AccountLedger {
    records: HashMap<u64, AccountRecord>,
    mode: RegistrationMode,
}

impl View for AccountLedger {
    type V = Map<u64, AccountRecord>;

    /// The records by identity.
    closed spec fn view(&self) -> Map<u64, AccountRecord> {
        self.records@
    }
}

impl AccountLedger {
    /// What the ledger does with an identity it has no record of.
    pub closed spec fn mode(&self) -> RegistrationMode {
        self.mode
    }

    /// A ledger without records.
    pub fn new(mode: RegistrationMode) -> (ledger: AccountLedger)
        ensures
            ledger@ == Map::<u64, AccountRecord>::empty(),
            ledger.mode() == mode,
    {
        AccountLedger { records: HashMap::new(), mode }
    }

    /// What the ledger does with an identity it has no record of.
    pub fn registration_mode(&self) -> (mode: RegistrationMode)
        ensures
            mode == self.mode(),
    {
        self.mode
    }

    /// The number of records.
    pub fn len(&self) -> (n: usize)
        ensures
            n == self@.len(),
    {
        broadcast use vstd::std_specs::hash::group_hash_axioms;

        self.records.len()
    }

    /// The record stored for `identity`, if there is one.
    pub fn get(&self, identity: u64) -> (r: Option<AccountRecord>)
        ensures
            r.is_some() == self@.contains_key(identity),
            r.is_some() ==> r.unwrap() == self@[identity],
    {
        broadcast use vstd::std_specs::hash::group_hash_axioms;

        match self.records.get(&identity) {
            Some(record) => Some(*record),
            None => None,
        }
    }

    /// The record to work on for `identity`, without storing anything: the
    /// stored one, a fresh one for an identity seen for the first time, or
    /// `UnknownAccount` where identities have to be registered first.
    pub fn look_up(&self, identity: u64) -> (r: Result<AccountRecord, EngineError>)
        ensures
            r == looked_up(self@, self.mode(), identity),
    {
        match self.get(identity) {
            Some(record) => Ok(record),
            None => match self.mode {
                RegistrationMode::Bootstrap => Ok(AccountRecord::new()),
                RegistrationMode::PreRegistered => Err(EngineError::UnknownAccount),
            },
        }
    }

    /// The record of `identity`. The first access of an identity stores a
    /// fresh record for it, unless identities have to be registered first:
    /// then it fails with `UnknownAccount` and stores nothing.
    pub fn resolve(&mut self, identity: u64) -> (r: Result<AccountRecord, EngineError>)
        ensures
            final(self).mode() == old(self).mode(),
            r == looked_up(old(self)@, old(self).mode(), identity),
            r.is_ok() ==> final(self)@ == registered(old(self)@, identity),
            r.is_err() ==> final(self)@ == old(self)@,
    {
        let found = self.look_up(identity);
        if let Ok(record) = found {
            if self.get(identity).is_none() {
                self.persist(identity, record);
            }
        }
        found
    }

    /// Stores `record` as the whole record of `identity`.
    pub fn persist(&mut self, identity: u64, record: AccountRecord)
        ensures
            final(self).mode() == old(self).mode(),
            final(self)@ == old(self)@.insert(identity, record),
    {
        broadcast use vstd::std_specs::hash::group_hash_axioms;

        self.records.insert(identity, record);
    }

    /// Registers `identity`: stores a fresh record for it where it has none,
    /// and leaves an existing record as it is.
    pub fn register(&mut self, identity: u64)
        ensures
            final(self).mode() == old(self).mode(),
            final(self)@ == registered(old(self)@, identity),
    {
        if self.get(identity).is_none() {
            self.persist(identity, AccountRecord::new());
        }
    }
}

} // verus!
