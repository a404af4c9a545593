//! The engine: one configuration, one ledger, and the operations on them.
//!
//! Each operation runs to its end on the state it finds and either succeeds as
//! a whole or changes nothing. The engine holds no tokens and no credentials:
//! it is told what the caller presented and answers with what the runtime has
//! to issue, destroy, keep and hand back.

use crate::account::{looked_up, record_or_fresh, AccountLedger, AccountRecord, RegistrationMode};
use crate::amount::Amount;
use crate::claim_policy::{claimed, evaluate_claim, ClaimOutcome, ClaimReceipt};
use crate::config::ScheduleConfig;
use crate::credential::CredentialState;
use crate::error::EngineError;
use crate::issuance::{issued_identifiers, records_after_issue};
use crate::redemption_policy::{
    burned, evaluate_burn, evaluate_paid_claim, paid, Asset, AssetKind, BurnOutcome, BurnReceipt,
    PaidClaimOutcome, PaidClaimReceipt,
};
use vstd::prelude::*;

verus! {

/// The state of an engine as contracts speak of it.
#[verifier::ext_equal]
pub struct EngineState {
    /// The configuration in force.
    pub config: ScheduleConfig,
    /// What the ledger does with an identity it has no record of.
    pub registration: RegistrationMode,
    /// The account records by identity.
    pub records: Map<u64, AccountRecord>,
    /// The identifier that the next issued credential gets.
    pub next_identifier: u64,
}

impl EngineState {
    /// The record that an operation on `identity` works on.
    pub open spec fn record_of(self, identity: u64) -> AccountRecord {
        record_or_fresh(self.records, identity)
    }

    /// This state with `record` stored for `identity`.
    pub open spec fn with_record(self, identity: u64, record: AccountRecord) -> EngineState {
        EngineState { records: self.records.insert(identity, record), ..self }
    }

    /// What a timed claim of `identity` at `now` comes to.
    pub open spec fn claim_outcome(
        self,
        identity: u64,
        credential: CredentialState,
        now: i64,
    ) -> Result<ClaimOutcome, EngineError> {
        if !credential.eligible {
            Err(EngineError::InvalidCredential)
        } else {
            match looked_up(self.records, self.registration, identity) {
                Ok(record) => claimed(self.config, record, credential, now),
                Err(e) => Err(e),
            }
        }
    }

    /// The state after a timed claim of `identity` at `now`.
    pub open spec fn after_claim(
        self,
        identity: u64,
        credential: CredentialState,
        now: i64,
    ) -> EngineState {
        match self.claim_outcome(identity, credential, now) {
            Ok(outcome) => self.with_record(identity, outcome.record),
            Err(_) => self,
        }
    }

    /// What a burn by `identity` comes to.
    pub open spec fn burn_outcome(
        self,
        identity: u64,
        credential: CredentialState,
        asset: Asset,
    ) -> Result<BurnOutcome, EngineError> {
        if asset.kind != AssetKind::Primary {
            Err(EngineError::WrongAsset)
        } else if !credential.eligible {
            Err(EngineError::InvalidCredential)
        } else {
            match looked_up(self.records, self.registration, identity) {
                Ok(record) => burned(self.config, record, credential, asset),
                Err(e) => Err(e),
            }
        }
    }

    /// The state after a burn by `identity`.
    pub open spec fn after_burn(
        self,
        identity: u64,
        credential: CredentialState,
        asset: Asset,
    ) -> EngineState {
        match self.burn_outcome(identity, credential, asset) {
            Ok(outcome) => self.with_record(identity, outcome.record),
            Err(_) => self,
        }
    }

    /// What a paid claim of `identity` comes to.
    pub open spec fn paid_claim_outcome(
        self,
        identity: u64,
        credential: CredentialState,
        asset: Asset,
    ) -> Result<PaidClaimOutcome, EngineError> {
        if !credential.eligible {
            Err(EngineError::InvalidCredential)
        } else {
            match looked_up(self.records, self.registration, identity) {
                Ok(record) => paid(self.config, record, credential, asset),
                Err(e) => Err(e),
            }
        }
    }

    /// The state after a batch of deliveries: unchanged where no delivery was
    /// accepted; else every issued identifier is registered and the counter
    /// has moved past the whole batch, refused deliveries included.
    pub open spec fn after_issue(self, deliveries: Seq<bool>) -> EngineState {
        if issued_identifiers(self.next_identifier as nat, deliveries).len() == 0 {
            self
        } else {
            EngineState {
                records: records_after_issue(
                    self.records,
                    self.next_identifier as nat,
                    deliveries,
                ),
                next_identifier: (self.next_identifier + deliveries.len()) as u64,
                ..self
            }
        }
    }

    /// The state after a paid claim of `identity`.
    pub open spec fn after_paid_claim(
        self,
        identity: u64,
        credential: CredentialState,
        asset: Asset,
    ) -> EngineState {
        match self.paid_claim_outcome(identity, credential, asset) {
            Ok(outcome) => self.with_record(identity, outcome.record),
            Err(_) => self,
        }
    }
}

/// The reward-claim engine.
pub struct SpankBank {
    config: ScheduleConfig,
    ledger: AccountLedger,
    next_identifier: u64,
}

impl View for SpankBank {
    type V = EngineState;

    closed spec fn view(&self) -> EngineState {
        EngineState {
            config: self.config,
            registration: self.ledger.mode(),
            records: self.ledger@,
            next_identifier: self.next_identifier,
        }
    }
}

impl SpankBank {
    /// An engine with the given configuration, no account records, and 0 as
    /// the identifier of the first credential it will issue.
    pub fn new(config: ScheduleConfig, registration: RegistrationMode) -> (bank: SpankBank)
        ensures
            bank@ == (EngineState {
                config,
                registration,
                records: Map::<u64, AccountRecord>::empty(),
                next_identifier: 0,
            }),
    {
        SpankBank { config, ledger: AccountLedger::new(registration), next_identifier: 0 }
    }

    /// The configuration in force.
    pub fn config(&self) -> (config: ScheduleConfig)
        ensures
            config == self@.config,
    {
        self.config
    }

    /// What the ledger does with an identity it has no record of.
    pub fn registration(&self) -> (mode: RegistrationMode)
        ensures
            mode == self@.registration,
    {
        self.ledger.registration_mode()
    }

    /// The identifier that the next issued credential gets.
    pub fn next_identifier(&self) -> (next: u64)
        ensures
            next == self@.next_identifier,
    {
        self.next_identifier
    }

    /// The record stored for `identity`, if there is one.
    pub fn record(&self, identity: u64) -> (r: Option<AccountRecord>)
        ensures
            r.is_some() == self@.records.contains_key(identity),
            r.is_some() ==> r.unwrap() == self@.records[identity],
    {
        self.ledger.get(identity)
    }

    /// The number of account records.
    pub fn account_count(&self) -> (n: usize)
        ensures
            n == self@.records.len(),
    {
        self.ledger.len()
    }

    /// Whether the counters of `identity` have room for one more claim, timed
    /// or paid.
    pub fn has_room_for_claim(&self, identity: u64) -> (b: bool)
        ensures
            b == self@.record_of(identity).can_claim(),
    {
        match self.ledger.get(identity) {
            Some(record) => record.has_room_for_claim(),
            None => AccountRecord::new().has_room_for_claim(),
        }
    }

    /// Whether the counters of `identity` have room for one more burn.
    pub fn has_room_for_burn(&self, identity: u64) -> (b: bool)
        ensures
            b == self@.record_of(identity).can_burn(),
    {
        match self.ledger.get(identity) {
            Some(record) => record.has_room_for_burn(),
            None => AccountRecord::new().has_room_for_burn(),
        }
    }

    /// Replaces the whole configuration. Records and the identifier counter
    /// stay as they are, and every later evaluation reads the new
    /// configuration alone.
    pub fn update_settings(&mut self, config: ScheduleConfig)
        ensures
            final(self)@ == (EngineState { config, ..old(self)@ }),
    {
        self.config = config;
    }

    /// States what an administrator's mint issues: the two amounts asked for,
    /// as primary and as bonus tokens. No counter is read or changed.
    pub fn mint(&self, primary_amount: Amount, bonus_amount: Amount) -> (issued: (Asset, Asset))
        ensures
            issued.0 == (Asset { kind: AssetKind::Primary, amount: primary_amount }),
            issued.1 == (Asset { kind: AssetKind::Bonus, amount: bonus_amount }),
    {
        (
            Asset { kind: AssetKind::Primary, amount: primary_amount },
            Asset { kind: AssetKind::Bonus, amount: bonus_amount },
        )
    }

    /// One timed claim of `identity` at `now`.
    ///
    /// The claim is refused with `InvalidCredential` where the credential is
    /// not eligible, with `UnknownAccount` where identities have to be
    /// registered and this one is not, with `TooSoon` or `GroupQuotaExceeded`
    /// where the rate limit does not admit it. A refused claim changes neither
    /// the engine nor the credential state. An admitted claim stores the
    /// counted record, writes the time of the claim into the credential state
    /// where a new window opened, and answers with the rewards to issue.
    pub fn claim(&mut self, identity: u64, credential: &mut CredentialState, now: i64) -> (r:
        Result<ClaimReceipt, EngineError>)
        requires
            old(self)@.record_of(identity).can_claim(),
        ensures
            final(self)@ == old(self)@.after_claim(identity, *old(credential), now),
            match old(self)@.claim_outcome(identity, *old(credential), now) {
                Ok(outcome) => r == Ok::<ClaimReceipt, EngineError>(outcome.receipt)
                    && *final(credential) == outcome.credential,
                Err(e) => r == Err::<ClaimReceipt, EngineError>(e) && *final(credential) == *old(
                    credential,
                ),
            },
    {
        if !credential.eligible {
            return Err(EngineError::InvalidCredential);
        }
        let record = match self.ledger.look_up(identity) {
            Ok(record) => record,
            Err(e) => {
                return Err(e);
            },
        };
        match evaluate_claim(&self.config, record, *credential, now) {
            Ok(outcome) => {
                self.ledger.persist(identity, outcome.record);
                *credential = outcome.credential;
                Ok(outcome.receipt)
            },
            Err(e) => Err(e),
        }
    }

    /// One burn by `identity` of one token out of `asset`.
    ///
    /// The burn is refused with `WrongAsset` where the asset is not of the
    /// primary token, with `InvalidCredential` where the credential is not
    /// eligible, with `UnknownAccount` where identities have to be registered
    /// and this one is not, with `InsufficientPayment` where the asset holds
    /// less than one token. A refused burn changes nothing. A burn that
    /// succeeds stores the record and answers with what to destroy, what to
    /// hand back and the bonus to issue.
    pub fn burn(&mut self, identity: u64, credential: &CredentialState, asset: Asset) -> (r: Result<
        BurnReceipt,
        EngineError,
    >)
        requires
            old(self)@.record_of(identity).can_burn(),
        ensures
            final(self)@ == old(self)@.after_burn(identity, *credential, asset),
            match old(self)@.burn_outcome(identity, *credential, asset) {
                Ok(outcome) => r == Ok::<BurnReceipt, EngineError>(outcome.receipt),
                Err(e) => r == Err::<BurnReceipt, EngineError>(e),
            },
    {
        match asset.kind {
            AssetKind::Primary => {},
            _ => {
                return Err(EngineError::WrongAsset);
            },
        }
        if !credential.eligible {
            return Err(EngineError::InvalidCredential);
        }
        let record = match self.ledger.look_up(identity) {
            Ok(record) => record,
            Err(e) => {
                return Err(e);
            },
        };
        match evaluate_burn(&self.config, record, *credential, asset) {
            Ok(outcome) => {
                self.ledger.persist(identity, outcome.record);
                Ok(outcome.receipt)
            },
            Err(e) => Err(e),
        }
    }

    /// One paid claim of `identity`, paid out of `asset`.
    ///
    /// The claim is refused with `InvalidCredential` where the credential is
    /// not eligible, with `UnknownAccount` where identities have to be
    /// registered and this one is not, with `InsufficientPayment` where the
    /// asset holds less than the price, with `WrongAsset` where it is not of
    /// the payment currency. A refused claim changes nothing. A claim that
    /// succeeds is counted whatever the rate limit says, and answers with the
    /// payment to keep, what to hand back and the rewards to issue.
    pub fn pay_claim(&mut self, identity: u64, credential: &CredentialState, asset: Asset) -> (r:
        Result<PaidClaimReceipt, EngineError>)
        requires
            old(self)@.record_of(identity).can_claim(),
        ensures
            final(self)@ == old(self)@.after_paid_claim(identity, *credential, asset),
            match old(self)@.paid_claim_outcome(identity, *credential, asset) {
                Ok(outcome) => r == Ok::<PaidClaimReceipt, EngineError>(outcome.receipt),
                Err(e) => r == Err::<PaidClaimReceipt, EngineError>(e),
            },
    {
        if !credential.eligible {
            return Err(EngineError::InvalidCredential);
        }
        let record = match self.ledger.look_up(identity) {
            Ok(record) => record,
            Err(e) => {
                return Err(e);
            },
        };
        match evaluate_paid_claim(&self.config, record, *credential, asset) {
            Ok(outcome) => {
                self.ledger.persist(identity, outcome.record);
                Ok(outcome.receipt)
            },
            Err(e) => Err(e),
        }
    }

    /// Records one batch of credential deliveries. `deliveries[i]` tells
    /// whether recipient `i` accepted the credential with the identifier
    /// `next_identifier + i`.
    ///
    /// A batch in which nobody accepted is refused with `NoRecipient` and
    /// changes nothing. Else the identifiers of the accepted deliveries come
    /// back in the order of the batch, each of them has a record from now on,
    /// and the counter moves past the whole batch, so that the identifier of a
    /// refused delivery is never used.
    pub fn issue_credentials(&mut self, deliveries: &Vec<bool>) -> (r: Result<
        Vec<u64>,
        EngineError,
    >)
        requires
            old(self)@.next_identifier + deliveries.len() <= u64::MAX,
        ensures
            final(self)@ == old(self)@.after_issue(deliveries@),
            match r {
                Ok(issued) => issued@.len() > 0 && issued@ == issued_identifiers(
                    old(self)@.next_identifier as nat,
                    deliveries@,
                ),
                Err(e) => e == EngineError::NoRecipient && issued_identifiers(
                    old(self)@.next_identifier as nat,
                    deliveries@,
                ).len() == 0,
            },
    {
        let first: u64 = self.next_identifier;
        let count: usize = deliveries.len();
        let mut issued: Vec<u64> = Vec::new();
        let mut i: usize = 0;
        while i < count
            invariant
                count == deliveries.len(),
                first + count <= u64::MAX,
                i <= count,
                issued@ == issued_identifiers(first as nat, deliveries@.take(i as int)),
            decreases count - i,
        {
            proof {
                assert(deliveries@.take(i + 1).drop_last() =~= deliveries@.take(i as int));
            }
            if deliveries[i] {
                issued.push(first + i as u64);
            }
            i = i + 1;
        }
        proof {
            assert(deliveries@.take(count as int) =~= deliveries@);
        }
        if issued.len() == 0 {
            return Err(EngineError::NoRecipient);
        }
        let ghost before = self.ledger@;
        let mut j: usize = 0;
        while j < count
            invariant
                count == deliveries.len(),
                first + count <= u64::MAX,
                j <= count,
                self.ledger.mode() == old(self).ledger.mode(),
                self.config == old(self).config,
                self.next_identifier == first,
                self.ledger@ =~= records_after_issue(
                    before,
                    first as nat,
                    deliveries@.take(j as int),
                ),
            decreases count - j,
        {
            if deliveries[j] {
                self.ledger.register(first + j as u64);
            }
            j = j + 1;
        }
        proof {
            assert(deliveries@.take(count as int) =~= deliveries@);
        }
        self.next_identifier = first + count as u64;
        Ok(issued)
    }
}

} // verus!
