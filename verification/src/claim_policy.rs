//! The timed claim: who may claim now, and what a claim changes.
//!
//! A claim is admitted by the rate limit of the configured cadence, then
//! counted. Counting is the one update that the timed and the paid claim
//! share: the claim count goes up by one, the primary reward is due, and a
//! bonus is due exactly when the new count lands on a schedule step.

use crate::account::AccountRecord;
use crate::amount::Amount;
use crate::config::{Cadence, ScheduleConfig};
use crate::credential::CredentialState;
use crate::error::EngineError;
use vstd::prelude::*;

verus! {

/// Where an account stands with respect to the rate limit. It is derived
/// from the record, the credential and the time, and stored nowhere.
#[derive(Clone, Copy, Debug, PartialEq, Eq, Structural)]
pub enum ClaimStatus {
    /// A claim made now is admitted.
    CanClaimNow,
    /// The claim interval has not passed yet.
    RateLimited,
    /// The window is still running and all its claims are used.
    GroupQuotaExceeded,
}

/// A bonus granted because the claim count landed on a schedule step.
#[derive(Clone, Copy, Debug, PartialEq, Eq, Structural)]
pub struct BonusGrant {
    /// The bonus reward to issue.
    pub amount: Amount,
    /// The index of the step that the claim count landed on.
    pub step_index: u64,
    /// The bonuses of the account on both paths, this one included.
    pub bonus_total: u64,
}

/// What the runtime has to issue for one counted claim.
#[derive(Clone, Copy, Debug, PartialEq, Eq, Structural)]
pub struct ClaimReceipt {
    /// The primary reward to issue.
    pub primary_reward: Amount,
    /// The claim count of the account after this claim.
    pub claims: u64,
    /// The bonus to issue, where the claim count landed on a step.
    pub bonus: Option<BonusGrant>,
}

/// A successful timed claim: the record and the credential state to store,
/// and the rewards to issue.
#[derive(Clone, Copy, Debug, PartialEq, Eq, Structural)]
pub struct ClaimOutcome {
    pub record: AccountRecord,
    pub credential: CredentialState,
    pub receipt: ClaimReceipt,
}

/// The window that opened at `last` and lasts `interval` seconds is over at
/// `now`. The moment it ends belongs to the time after it.
pub open spec fn window_elapsed(last: i64, interval: i64, now: i64) -> bool {
    last + interval <= now
}

/// Where the account stands at `now`.
pub open spec fn status_of(
    cadence: Cadence,
    record: AccountRecord,
    credential: CredentialState,
    now: i64,
) -> ClaimStatus {
    match cadence {
        Cadence::Interval { claim_interval_seconds } => {
            if window_elapsed(credential.last_claim_timestamp, claim_interval_seconds, now) {
                ClaimStatus::CanClaimNow
            } else {
                ClaimStatus::RateLimited
            }
        },
        Cadence::Grouped { claim_group_size, group_interval_seconds } => {
            if window_elapsed(credential.last_claim_timestamp, group_interval_seconds, now) {
                ClaimStatus::CanClaimNow
            } else if record.claims_in_current_group < claim_group_size {
                ClaimStatus::CanClaimNow
            } else {
                ClaimStatus::GroupQuotaExceeded
            }
        },
    }
}

/// The record and the credential state once the rate limit has admitted a
/// claim at `now`. A claim inside a running window uses one of its claims and
/// leaves the window where it is; any other claim opens a window at `now`.
pub open spec fn admitted(
    cadence: Cadence,
    record: AccountRecord,
    credential: CredentialState,
    now: i64,
) -> (AccountRecord, CredentialState) {
    match cadence {
        Cadence::Interval { .. } => (
            record,
            CredentialState { last_claim_timestamp: now, ..credential },
        ),
        Cadence::Grouped { group_interval_seconds, .. } => {
            if window_elapsed(credential.last_claim_timestamp, group_interval_seconds, now) {
                (
                    AccountRecord { claims_in_current_group: 1, ..record },
                    CredentialState { last_claim_timestamp: now, ..credential },
                )
            } else {
                (
                    AccountRecord {
                        claims_in_current_group: (record.claims_in_current_group + 1) as u32,
                        ..record
                    },
                    credential,
                )
            }
        },
    }
}

/// The bonus that is due when the claim count has become `claims` on a record
/// that held `record` before, if any.
pub open spec fn bonus_for(config: ScheduleConfig, record: AccountRecord, claims: nat) -> Option<
    BonusGrant,
> {
    match config.schedule().step_index(claims) {
        Some(n) => Some(
            BonusGrant {
                amount: config.bonus_reward_amount,
                step_index: n as u64,
                bonus_total: (record.bonus_total() + 1) as u64,
            },
        ),
        None => None,
    }
}

/// The record after one more claim was counted on it.
pub open spec fn counted_record(config: ScheduleConfig, record: AccountRecord) -> AccountRecord {
    let claims = (record.claims + 1) as u64;
    if config.schedule().is_step(claims as nat) {
        AccountRecord {
            claims,
            bonus_free_count: (record.bonus_free_count + 1) as u32,
            ..record
        }
    } else {
        AccountRecord { claims, ..record }
    }
}

/// What is due for one more claim counted on `record`.
pub open spec fn counted_receipt(config: ScheduleConfig, record: AccountRecord) -> ClaimReceipt {
    ClaimReceipt {
        primary_reward: config.reward_per_claim,
        claims: (record.claims + 1) as u64,
        bonus: bonus_for(config, record, (record.claims + 1) as nat),
    }
}

/// The timed claim as a function of what it reads.
pub open spec fn claimed(
    config: ScheduleConfig,
    record: AccountRecord,
    credential: CredentialState,
    now: i64,
) -> Result<ClaimOutcome, EngineError> {
    if !credential.eligible {
        Err(EngineError::InvalidCredential)
    } else {
        match status_of(config.cadence, record, credential, now) {
            ClaimStatus::RateLimited => Err(EngineError::TooSoon),
            ClaimStatus::GroupQuotaExceeded => Err(EngineError::GroupQuotaExceeded),
            ClaimStatus::CanClaimNow => {
                let (opened, stamped) = admitted(config.cadence, record, credential, now);
                Ok(
                    ClaimOutcome {
                        record: counted_record(config, opened),
                        credential: stamped,
                        receipt: counted_receipt(config, opened),
                    },
                )
            },
        }
    }
}

/// Whether the window that opened at `last` and lasts `interval` seconds is
/// over at `now`.
pub fn has_window_elapsed(last: i64, interval: i64, now: i64) -> (b: bool)
    ensures
        b == window_elapsed(last, interval, now),
{
    last as i128 + interval as i128 <= now as i128
}

/// Where the account stands at `now`.
pub fn claim_status(
    cadence: &Cadence,
    record: &AccountRecord,
    credential: &CredentialState,
    now: i64,
) -> (status: ClaimStatus)
    ensures
        status == status_of(*cadence, *record, *credential, now),
{
    match cadence {
        Cadence::Interval { claim_interval_seconds } => {
            if has_window_elapsed(credential.last_claim_timestamp, *claim_interval_seconds, now) {
                ClaimStatus::CanClaimNow
            } else {
                ClaimStatus::RateLimited
            }
        },
        Cadence::Grouped { claim_group_size, group_interval_seconds } => {
            if has_window_elapsed(credential.last_claim_timestamp, *group_interval_seconds, now) {
                ClaimStatus::CanClaimNow
            } else if record.claims_in_current_group < *claim_group_size {
                ClaimStatus::CanClaimNow
            } else {
                ClaimStatus::GroupQuotaExceeded
            }
        },
    }
}

/// Counts one claim on `record`: the claim count goes up by one, the primary
/// reward is due, and the bonus is due exactly when the new count is a step of
/// the schedule. Timed and paid claims are both counted here.
pub fn count_claim(config: &ScheduleConfig, record: AccountRecord) -> (r: (
    AccountRecord,
    ClaimReceipt,
))
    requires
        record.can_claim(),
    ensures
        r.0 == counted_record(*config, record),
        r.1 == counted_receipt(*config, record),
{
    let claims: u64 = record.claims + 1;
    let primary_reward = config.reward_per_claim;
    match config.bonus_schedule().bonus_step(claims) {
        Some(step_index) => {
            let grant = BonusGrant {
                amount: config.bonus_reward_amount,
                step_index,
                bonus_total: record.total_bonuses() + 1,
            };
            (
                AccountRecord { claims, bonus_free_count: record.bonus_free_count + 1, ..record },
                ClaimReceipt { primary_reward, claims, bonus: Some(grant) },
            )
        },
        None => (
            AccountRecord { claims, ..record },
            ClaimReceipt { primary_reward, claims, bonus: None },
        ),
    }
}

/// Decides one timed claim. An ineligible credential is refused with
/// `InvalidCredential`, a claim before the interval has passed with `TooSoon`,
/// a claim in a window without claims left with `GroupQuotaExceeded`. Any
/// other claim succeeds and is counted.
pub fn evaluate_claim(
    config: &ScheduleConfig,
    record: AccountRecord,
    credential: CredentialState,
    now: i64,
) -> (r: Result<ClaimOutcome, EngineError>)
    requires
        record.can_claim(),
    ensures
        r == claimed(*config, record, credential, now),
{
    if !credential.eligible {
        return Err(EngineError::InvalidCredential);
    }
    match claim_status(&config.cadence, &record, &credential, now) {
        ClaimStatus::RateLimited => Err(EngineError::TooSoon),
        ClaimStatus::GroupQuotaExceeded => Err(EngineError::GroupQuotaExceeded),
        ClaimStatus::CanClaimNow => {
            let stamped = CredentialState { last_claim_timestamp: now, ..credential };
            let (opened, kept) = match config.cadence {
                Cadence::Interval { .. } => (record, stamped),
                Cadence::Grouped { group_interval_seconds, .. } => {
                    if has_window_elapsed(
                        credential.last_claim_timestamp,
                        group_interval_seconds,
                        now,
                    ) {
                        (AccountRecord { claims_in_current_group: 1, ..record }, stamped)
                    } else {
                        (
                            AccountRecord {
                                claims_in_current_group: record.claims_in_current_group + 1,
                                ..record
                            },
                            credential,
                        )
                    }
                },
            };
            let (counted, receipt) = count_claim(config, opened);
            Ok(ClaimOutcome { record: counted, credential: kept, receipt })
        },
    }
}

} // verus!
