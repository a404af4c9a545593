use spank_bank::account::{AccountRecord, RegistrationMode};
use spank_bank::amount::{Amount, SUBUNITS_PER_TOKEN};
use spank_bank::claim_policy::{BonusGrant, ClaimReceipt};
use spank_bank::config::{Cadence, ScheduleConfig};
use spank_bank::credential::CredentialState;
use spank_bank::engine::SpankBank;
use spank_bank::error::EngineError;
use spank_bank::redemption_policy::{
    evaluate_burn, evaluate_paid_claim, Asset, AssetKind, BurnReceipt, RedeemedBonus,
};

fn config(burn_cost: u32, price: u32) -> ScheduleConfig {
    ScheduleConfig {
        reward_per_claim: Amount::from_tokens(100),
        cadence: Cadence::Interval { claim_interval_seconds: 3600 },
        bonus_reward_amount: Amount::from_tokens(7),
        bonus_first_threshold: 2,
        bonus_fixed_increment: 2,
        bonus_growing_increment: 1,
        burn_cost_for_bonus: burn_cost,
        paid_claim_price: price,
    }
}

fn primary(tokens: u64) -> Asset {
    Asset { kind: AssetKind::Primary, amount: Amount::from_tokens(tokens) }
}

fn payment(tokens: u64) -> Asset {
    Asset { kind: AssetKind::Payment, amount: Amount::from_tokens(tokens) }
}

const HOLDER: CredentialState = CredentialState { eligible: true, last_claim_timestamp: 0 };

#[test]
fn burning_five_with_cost_three() {
    let mut bank = SpankBank::new(config(3, 5), RegistrationMode::Bootstrap);

    let first = bank.burn(1, &HOLDER, primary(5)).unwrap();
    assert_eq!(
        first,
        BurnReceipt { burned: primary(1), remainder: primary(4), bonus: None }
    );
    assert_eq!(bank.record(1).unwrap().burned_count, 1);

    let second = bank.burn(1, &HOLDER, first.remainder).unwrap();
    assert_eq!(second.remainder, primary(3));
    assert_eq!(second.bonus, None);
    assert_eq!(bank.record(1).unwrap().burned_count, 2);

    let third = bank.burn(1, &HOLDER, second.remainder).unwrap();
    assert_eq!(third.burned, primary(1));
    assert_eq!(third.remainder, primary(2));
    assert_eq!(
        third.bonus,
        Some(RedeemedBonus { amount: Amount::from_tokens(1), bonus_total: 1 })
    );
    let record = bank.record(1).unwrap();
    assert_eq!(record.burned_count, 0);
    assert_eq!(record.bonus_paid_count, 1);
    assert_eq!(record.bonus_free_count, 0);
    assert_eq!(record.claims, 0);

    let fourth = bank.burn(1, &HOLDER, third.remainder).unwrap();
    assert_eq!(fourth.bonus, None);
    assert_eq!(bank.record(1).unwrap().burned_count, 1);
}

#[test]
fn burn_takes_one_token_of_a_fraction() {
    let asset = Asset {
        kind: AssetKind::Primary,
        amount: Amount::from_subunits(SUBUNITS_PER_TOKEN + SUBUNITS_PER_TOKEN / 2),
    };
    let outcome = evaluate_burn(&config(3, 5), AccountRecord::new(), HOLDER, asset).unwrap();
    assert_eq!(outcome.receipt.burned.amount, Amount::from_tokens(1));
    assert_eq!(outcome.receipt.remainder.amount, Amount::from_subunits(SUBUNITS_PER_TOKEN / 2));
}

#[test]
fn burn_of_exactly_one_token_leaves_nothing() {
    let outcome = evaluate_burn(&config(3, 5), AccountRecord::new(), HOLDER, primary(1)).unwrap();
    assert_eq!(outcome.receipt.remainder, primary(0));
    assert_eq!(outcome.receipt.remainder.amount, Amount::zero());
}

#[test]
fn burn_ignores_the_rate_limit() {
    let mut bank = SpankBank::new(config(1, 5), RegistrationMode::Bootstrap);
    let waiting = CredentialState { eligible: true, last_claim_timestamp: i64::MAX };
    for k in 1u32..=3 {
        let receipt = bank.burn(1, &waiting, primary(1)).unwrap();
        assert_eq!(
            receipt.bonus,
            Some(RedeemedBonus { amount: Amount::from_tokens(1), bonus_total: k as u64 })
        );
        assert_eq!(bank.record(1).unwrap().burned_count, 0);
        assert_eq!(bank.record(1).unwrap().bonus_paid_count, k);
    }
}

#[test]
fn burn_cost_of_zero_grants_on_every_burn() {
    let outcome = evaluate_burn(&config(0, 5), AccountRecord::new(), HOLDER, primary(2)).unwrap();
    assert!(outcome.receipt.bonus.is_some());
    assert_eq!(outcome.record.burned_count, 0);
}

#[test]
fn burn_count_above_a_lowered_cost_resets() {
    let record = AccountRecord { burned_count: 8, ..AccountRecord::new() };
    let outcome = evaluate_burn(&config(3, 5), record, HOLDER, primary(1)).unwrap();
    assert_eq!(outcome.record.burned_count, 0);
    assert_eq!(outcome.record.bonus_paid_count, 1);
}

#[test]
fn burn_count_at_its_limit_resets() {
    let record = AccountRecord { burned_count: u32::MAX, ..AccountRecord::new() };
    let outcome = evaluate_burn(&config(u32::MAX, 5), record, HOLDER, primary(1)).unwrap();
    assert_eq!(outcome.record.burned_count, 0);
    assert!(outcome.receipt.bonus.is_some());
}

#[test]
fn burn_of_wrong_asset_is_refused() {
    let mut bank = SpankBank::new(config(3, 5), RegistrationMode::Bootstrap);
    for kind in [AssetKind::Bonus, AssetKind::Payment, AssetKind::Foreign] {
        let asset = Asset { kind, amount: Amount::from_tokens(5) };
        assert_eq!(bank.burn(1, &HOLDER, asset), Err(EngineError::WrongAsset));
    }
    assert_eq!(bank.record(1), None);
    // The kind of the asset is looked at before the credential.
    let ineligible = CredentialState { eligible: false, last_claim_timestamp: 0 };
    let bonus = Asset { kind: AssetKind::Bonus, amount: Amount::from_tokens(5) };
    assert_eq!(bank.burn(1, &ineligible, bonus), Err(EngineError::WrongAsset));
    assert_eq!(bank.burn(1, &ineligible, primary(5)), Err(EngineError::InvalidCredential));
}

#[test]
fn burn_of_less_than_one_token_is_refused() {
    let mut bank = SpankBank::new(config(3, 5), RegistrationMode::Bootstrap);
    let crumbs = Asset {
        kind: AssetKind::Primary,
        amount: Amount::from_subunits(SUBUNITS_PER_TOKEN - 1),
    };
    assert_eq!(bank.burn(1, &HOLDER, crumbs), Err(EngineError::InsufficientPayment));
    assert_eq!(bank.burn(1, &HOLDER, primary(0)), Err(EngineError::InsufficientPayment));
    assert_eq!(bank.record(1), None);
}

#[test]
fn burn_by_unregistered_identity() {
    let mut bank = SpankBank::new(config(3, 5), RegistrationMode::PreRegistered);
    assert_eq!(bank.burn(1, &HOLDER, primary(5)), Err(EngineError::UnknownAccount));
    bank.issue_credentials(&vec![true, true]).unwrap();
    assert!(bank.burn(1, &HOLDER, primary(5)).is_ok());
    assert_eq!(bank.burn(2, &HOLDER, primary(5)), Err(EngineError::UnknownAccount));
}

#[test]
fn paid_claim_skips_the_wait() {
    let mut bank = SpankBank::new(config(3, 5), RegistrationMode::Bootstrap);
    let mut credential = CredentialState { eligible: true, last_claim_timestamp: 0 };
    bank.claim(1, &mut credential, 3600).unwrap();
    assert_eq!(bank.claim(1, &mut credential, 3601), Err(EngineError::TooSoon));

    let receipt = bank.pay_claim(1, &credential, payment(12)).unwrap();
    assert_eq!(receipt.payment, payment(5));
    assert_eq!(receipt.remainder, payment(7));
    assert_eq!(
        receipt.claim,
        ClaimReceipt {
            primary_reward: Amount::from_tokens(100),
            claims: 2,
            bonus: Some(BonusGrant {
                amount: Amount::from_tokens(7),
                step_index: 1,
                bonus_total: 1
            }),
        }
    );
    let record = bank.record(1).unwrap();
    assert_eq!(record.claims, 2);
    assert_eq!(record.bonus_free_count, 1);
    assert_eq!(credential.last_claim_timestamp, 3600);
    // The wait of the timed claim is as it was.
    assert_eq!(bank.claim(1, &mut credential, 3602), Err(EngineError::TooSoon));
}

#[test]
fn paid_claim_with_exact_price() {
    let outcome =
        evaluate_paid_claim(&config(3, 5), AccountRecord::new(), HOLDER, payment(5)).unwrap();
    assert_eq!(outcome.receipt.payment, payment(5));
    assert_eq!(outcome.receipt.remainder, payment(0));
    assert_eq!(outcome.record.claims, 1);
    assert_eq!(outcome.receipt.claim.bonus, None);
}

#[test]
fn paid_claim_keeps_window_counters() {
    let record = AccountRecord { claims_in_current_group: 3, burned_count: 2, ..AccountRecord::new() };
    let outcome = evaluate_paid_claim(&config(3, 5), record, HOLDER, payment(5)).unwrap();
    assert_eq!(outcome.record.claims_in_current_group, 3);
    assert_eq!(outcome.record.burned_count, 2);
}

#[test]
fn paid_claim_with_too_little_is_refused() {
    let mut bank = SpankBank::new(config(3, 5), RegistrationMode::Bootstrap);
    let short = Asset {
        kind: AssetKind::Payment,
        amount: Amount::from_subunits(5 * SUBUNITS_PER_TOKEN - 1),
    };
    assert_eq!(bank.pay_claim(1, &HOLDER, short), Err(EngineError::InsufficientPayment));
    assert_eq!(bank.pay_claim(1, &HOLDER, payment(0)), Err(EngineError::InsufficientPayment));
    assert_eq!(bank.record(1), None);
}

#[test]
fn paid_claim_with_wrong_asset_is_refused() {
    let mut bank = SpankBank::new(config(3, 5), RegistrationMode::Bootstrap);
    assert_eq!(bank.pay_claim(1, &HOLDER, primary(5)), Err(EngineError::WrongAsset));
    // The amount is looked at before the kind.
    assert_eq!(bank.pay_claim(1, &HOLDER, primary(4)), Err(EngineError::InsufficientPayment));
    assert_eq!(bank.record(1), None);
}

#[test]
fn paid_claim_needs_an_eligible_credential() {
    let mut bank = SpankBank::new(config(3, 5), RegistrationMode::Bootstrap);
    let ineligible = CredentialState { eligible: false, last_claim_timestamp: 0 };
    assert_eq!(bank.pay_claim(1, &ineligible, payment(5)), Err(EngineError::InvalidCredential));
    let mut registered = SpankBank::new(config(3, 5), RegistrationMode::PreRegistered);
    assert_eq!(registered.pay_claim(1, &HOLDER, payment(5)), Err(EngineError::UnknownAccount));
}

#[test]
fn free_price_takes_nothing() {
    let outcome =
        evaluate_paid_claim(&config(3, 0), AccountRecord::new(), HOLDER, payment(2)).unwrap();
    assert_eq!(outcome.receipt.payment, payment(0));
    assert_eq!(outcome.receipt.remainder, payment(2));
}
