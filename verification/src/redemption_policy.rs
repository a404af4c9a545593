//! The two ways past the timed claim: burning primary tokens for a bonus
//! token, and paying for a claim that does not wait.

use crate::account::AccountRecord;
use crate::amount::Amount;
use crate::claim_policy::{count_claim, counted_receipt, counted_record, ClaimReceipt};
use crate::config::ScheduleConfig;
use crate::credential::CredentialState;
use crate::error::EngineError;
use vstd::prelude::*;

verus! {

/// The kinds of token the engine tells apart.
#[derive(Clone, Copy, Debug, PartialEq, Eq, Structural)]
pub enum AssetKind {
    /// The token granted by every claim.
    Primary,
    /// The token granted on schedule steps and for burning.
    Bonus,
    /// The currency that pays for a claim.
    Payment,
    /// Any other token.
    Foreign,
}

/// An amount of one kind of token, as a caller presents it or gets it back.
#[derive(Clone, Copy, Debug, PartialEq, Eq, Structural)]
pub struct Asset {
    pub kind: AssetKind,
    pub amount: Amount,
}

/// A bonus granted for burning primary tokens.
#[derive(Clone, Copy, Debug, PartialEq, Eq, Structural)]
pub struct RedeemedBonus {
    /// The bonus reward to issue: one whole token.
    pub amount: Amount,
    /// The bonuses of the account on both paths, this one included.
    pub bonus_total: u64,
}

/// What the runtime has to do for one burn.
#[derive(Clone, Copy, Debug, PartialEq, Eq, Structural)]
pub struct BurnReceipt {
    /// What to destroy of the asset presented: one whole token.
    pub burned: Asset,
    /// What to hand back to the caller.
    pub remainder: Asset,
    /// The bonus to issue, where this burn completed the cost of one.
    pub bonus: Option<RedeemedBonus>,
}

/// A successful burn: the record to store and what the runtime has to do.
#[derive(Clone, Copy, Debug, PartialEq, Eq, Structural)]
pub struct BurnOutcome {
    pub record: AccountRecord,
    pub receipt: BurnReceipt,
}

/// What the runtime has to do for one paid claim.
#[derive(Clone, Copy, Debug, PartialEq, Eq, Structural)]
pub struct PaidClaimReceipt {
    /// What to move from the asset presented into the operator's custody.
    pub payment: Asset,
    /// What to hand back to the caller.
    pub remainder: Asset,
    /// The rewards to issue.
    pub claim: ClaimReceipt,
}

/// A successful paid claim: the record to store and what the runtime has to
/// do.
#[derive(Clone, Copy, Debug, PartialEq, Eq, Structural)]
pub struct PaidClaimOutcome {
    pub record: AccountRecord,
    pub receipt: PaidClaimReceipt,
}

/// One more burned token completes the cost of a bonus.
pub open spec fn burn_completes(config: ScheduleConfig, record: AccountRecord) -> bool {
    record.burned_count + 1 >= config.burn_cost_for_bonus
}

/// The record after one more token was burned on it.
pub open spec fn burned_record(config: ScheduleConfig, record: AccountRecord) -> AccountRecord {
    if burn_completes(config, record) {
        AccountRecord {
            burned_count: 0,
            bonus_paid_count: (record.bonus_paid_count + 1) as u32,
            ..record
        }
    } else {
        AccountRecord { burned_count: (record.burned_count + 1) as u32, ..record }
    }
}

/// The bonus that one more burned token earns, if any.
pub open spec fn burned_bonus(config: ScheduleConfig, record: AccountRecord) -> Option<
    RedeemedBonus,
> {
    if burn_completes(config, record) {
        Some(
            RedeemedBonus {
                amount: Amount { subunits: Amount::of_tokens(1) as u128 },
                bonus_total: (record.bonus_total() + 1) as u64,
            },
        )
    } else {
        None
    }
}

/// The burn as a function of what it reads.
pub open spec fn burned(
    config: ScheduleConfig,
    record: AccountRecord,
    credential: CredentialState,
    asset: Asset,
) -> Result<BurnOutcome, EngineError> {
    if asset.kind != AssetKind::Primary {
        Err(EngineError::WrongAsset)
    } else if !credential.eligible {
        Err(EngineError::InvalidCredential)
    } else if asset.amount@ < Amount::of_tokens(1) {
        Err(EngineError::InsufficientPayment)
    } else {
        Ok(
            BurnOutcome {
                record: burned_record(config, record),
                receipt: BurnReceipt {
                    burned: Asset {
                        kind: AssetKind::Primary,
                        amount: Amount { subunits: Amount::of_tokens(1) as u128 },
                    },
                    remainder: Asset {
                        kind: AssetKind::Primary,
                        amount: Amount {
                            subunits: (asset.amount@ - Amount::of_tokens(1)) as u128,
                        },
                    },
                    bonus: burned_bonus(config, record),
                },
            },
        )
    }
}

/// The paid claim as a function of what it reads.
pub open spec fn paid(
    config: ScheduleConfig,
    record: AccountRecord,
    credential: CredentialState,
    asset: Asset,
) -> Result<PaidClaimOutcome, EngineError> {
    if !credential.eligible {
        Err(EngineError::InvalidCredential)
    } else if asset.amount@ < config.price() {
        Err(EngineError::InsufficientPayment)
    } else if asset.kind != AssetKind::Payment {
        Err(EngineError::WrongAsset)
    } else {
        Ok(
            PaidClaimOutcome {
                record: counted_record(config, record),
                receipt: PaidClaimReceipt {
                    payment: Asset {
                        kind: AssetKind::Payment,
                        amount: Amount { subunits: config.price() as u128 },
                    },
                    remainder: Asset {
                        kind: AssetKind::Payment,
                        amount: Amount { subunits: (asset.amount@ - config.price()) as u128 },
                    },
                    claim: counted_receipt(config, record),
                },
            },
        )
    }
}

/// Decides one burn. Exactly one whole token of the asset presented is
/// destroyed and the rest goes back to the caller, whatever the asset holds
/// beyond one token. The burn is counted, and the one that completes the
/// configured cost earns one bonus token and starts the count again. No rate
/// limit applies.
///
/// An asset that is not of the primary token is refused with `WrongAsset`, an
/// ineligible credential with `InvalidCredential`, an asset of less than one
/// token with `InsufficientPayment`.
pub fn evaluate_burn(
    config: &ScheduleConfig,
    record: AccountRecord,
    credential: CredentialState,
    asset: Asset,
) -> (r: Result<BurnOutcome, EngineError>)
    requires
        record.can_burn(),
    ensures
        r == burned(*config, record, credential, asset),
{
    match asset.kind {
        AssetKind::Primary => {},
        _ => {
            return Err(EngineError::WrongAsset);
        },
    }
    if !credential.eligible {
        return Err(EngineError::InvalidCredential);
    }
    let one = Amount::from_tokens(1);
    let rest = match asset.amount.take(one) {
        Some(rest) => rest,
        None => {
            return Err(EngineError::InsufficientPayment);
        },
    };
    let completes = record.burned_count as u64 + 1 >= config.burn_cost_for_bonus as u64;
    let (next, bonus) = if completes {
        (
            AccountRecord {
                burned_count: 0,
                bonus_paid_count: record.bonus_paid_count + 1,
                ..record
            },
            Some(RedeemedBonus { amount: one, bonus_total: record.total_bonuses() + 1 }),
        )
    } else {
        (AccountRecord { burned_count: record.burned_count + 1, ..record }, None)
    };
    Ok(
        BurnOutcome {
            record: next,
            receipt: BurnReceipt {
                burned: Asset { kind: AssetKind::Primary, amount: one },
                remainder: Asset { kind: AssetKind::Primary, amount: rest },
                bonus,
            },
        },
    )
}

/// Decides one paid claim. The configured price is taken from the asset
/// presented and the rest goes back to the caller; the claim is then counted
/// as a timed claim is, but neither the rate limit nor the window is looked at
/// or changed.
///
/// An ineligible credential is refused with `InvalidCredential`, an asset
/// that holds less than the price with `InsufficientPayment`, an asset that is
/// not of the payment currency with `WrongAsset`.
pub fn evaluate_paid_claim(
    config: &ScheduleConfig,
    record: AccountRecord,
    credential: CredentialState,
    asset: Asset,
) -> (r: Result<PaidClaimOutcome, EngineError>)
    requires
        record.can_claim(),
    ensures
        r == paid(*config, record, credential, asset),
{
    if !credential.eligible {
        return Err(EngineError::InvalidCredential);
    }
    let price = config.paid_claim_amount();
    let rest = match asset.amount.take(price) {
        Some(rest) => rest,
        None => {
            return Err(EngineError::InsufficientPayment);
        },
    };
    match asset.kind {
        AssetKind::Payment => {},
        _ => {
            return Err(EngineError::WrongAsset);
        },
    }
    let (counted, claim) = count_claim(config, record);
    Ok(
        PaidClaimOutcome {
            record: counted,
            receipt: PaidClaimReceipt {
                payment: Asset { kind: AssetKind::Payment, amount: price },
                remainder: Asset { kind: AssetKind::Payment, amount: rest },
                claim,
            },
        },
    )
}

} // verus!
