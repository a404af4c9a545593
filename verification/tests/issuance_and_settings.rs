use spank_bank::account::{AccountLedger, AccountRecord, RegistrationMode};
use spank_bank::amount::{Amount, SUBUNITS_PER_TOKEN};
use spank_bank::config::{Cadence, ScheduleConfig};
use spank_bank::credential::CredentialState;
use spank_bank::engine::SpankBank;
use spank_bank::error::EngineError;
use spank_bank::redemption_policy::{Asset, AssetKind};

fn config() -> ScheduleConfig {
    ScheduleConfig {
        reward_per_claim: Amount::from_tokens(100),
        cadence: Cadence::Interval { claim_interval_seconds: 60 },
        bonus_reward_amount: Amount::from_tokens(7),
        bonus_first_threshold: 10,
        bonus_fixed_increment: 2,
        bonus_growing_increment: 1,
        burn_cost_for_bonus: 3,
        paid_claim_price: 5,
    }
}

#[test]
fn batch_of_three_with_one_refusal() {
    let mut bank = SpankBank::new(config(), RegistrationMode::PreRegistered);
    assert_eq!(bank.next_identifier(), 0);
    let issued = bank.issue_credentials(&vec![true, false, true]).unwrap();
    assert_eq!(issued, vec![0, 2]);
    assert_eq!(issued.len(), 2);
    assert_eq!(bank.record(0), Some(AccountRecord::new()));
    assert_eq!(bank.record(1), None);
    assert_eq!(bank.record(2), Some(AccountRecord::new()));
    assert_eq!(bank.record(3), None);
    assert_eq!(bank.next_identifier(), 3);

    // The gap stays: the next batch starts after the refused identifier.
    let next = bank.issue_credentials(&vec![true]).unwrap();
    assert_eq!(next, vec![3]);
    assert_eq!(bank.next_identifier(), 4);
    assert_eq!(bank.record(1), None);
}

#[test]
fn batch_without_acceptance_is_refused() {
    let mut bank = SpankBank::new(config(), RegistrationMode::PreRegistered);
    bank.issue_credentials(&vec![true]).unwrap();
    assert_eq!(
        bank.issue_credentials(&vec![false, false, false]),
        Err(EngineError::NoRecipient)
    );
    assert_eq!(bank.next_identifier(), 1);
    assert_eq!(bank.record(1), None);
    assert_eq!(bank.record(2), None);
    assert_eq!(bank.record(3), None);
}

#[test]
fn empty_batch_is_refused() {
    let mut bank = SpankBank::new(config(), RegistrationMode::Bootstrap);
    assert_eq!(bank.issue_credentials(&Vec::new()), Err(EngineError::NoRecipient));
    assert_eq!(bank.next_identifier(), 0);
}

#[test]
fn issuance_keeps_an_existing_record() {
    let mut bank = SpankBank::new(config(), RegistrationMode::Bootstrap);
    let mut credential = CredentialState { eligible: true, last_claim_timestamp: 0 };
    bank.claim(1, &mut credential, 60).unwrap();
    bank.issue_credentials(&vec![true, true]).unwrap();
    assert_eq!(bank.record(0), Some(AccountRecord::new()));
    assert_eq!(bank.record(1).unwrap().claims, 1);
}

#[test]
fn registered_identity_can_claim() {
    let mut bank = SpankBank::new(config(), RegistrationMode::PreRegistered);
    let mut credential = CredentialState { eligible: true, last_claim_timestamp: 0 };
    assert_eq!(bank.claim(0, &mut credential, 60), Err(EngineError::UnknownAccount));
    bank.issue_credentials(&vec![true]).unwrap();
    assert_eq!(bank.claim(0, &mut credential, 60).unwrap().claims, 1);
}

#[test]
fn settings_are_replaced_as_a_whole() {
    let mut bank = SpankBank::new(config(), RegistrationMode::Bootstrap);
    let mut credential = CredentialState { eligible: true, last_claim_timestamp: 0 };
    bank.claim(1, &mut credential, 60).unwrap();

    let replaced = ScheduleConfig {
        reward_per_claim: Amount::from_tokens(1),
        cadence: Cadence::Grouped { claim_group_size: 1, group_interval_seconds: 1000 },
        bonus_reward_amount: Amount::from_tokens(2),
        bonus_first_threshold: 2,
        bonus_fixed_increment: 0,
        bonus_growing_increment: 0,
        burn_cost_for_bonus: 1,
        paid_claim_price: 9,
    };
    bank.update_settings(replaced);
    assert_eq!(bank.config(), replaced);
    assert_eq!(bank.record(1).unwrap().claims, 1);
    assert_eq!(bank.next_identifier(), 0);

    // Under the old interval of 60 s a claim at 120 would not wait; the new
    // window of 1000 s is still running and its one claim is open.
    let receipt = bank.claim(1, &mut credential, 120).unwrap();
    assert_eq!(receipt.primary_reward, Amount::from_tokens(1));
    assert_eq!(receipt.claims, 2);
    let bonus = receipt.bonus.unwrap();
    assert_eq!(bonus.amount, Amount::from_tokens(2));
    assert_eq!(bonus.step_index, 1);
    assert_eq!(credential.last_claim_timestamp, 60);
    assert_eq!(bank.claim(1, &mut credential, 121), Err(EngineError::GroupQuotaExceeded));

    // Burn cost and price are the new ones too.
    let primary = Asset { kind: AssetKind::Primary, amount: Amount::from_tokens(1) };
    assert!(bank.burn(1, &credential, primary).unwrap().bonus.is_some());
    let eight = Asset { kind: AssetKind::Payment, amount: Amount::from_tokens(8) };
    assert_eq!(bank.pay_claim(1, &credential, eight), Err(EngineError::InsufficientPayment));
    let nine = Asset { kind: AssetKind::Payment, amount: Amount::from_tokens(9) };
    assert_eq!(bank.pay_claim(1, &credential, nine).unwrap().payment, nine);
}

#[test]
fn mint_states_both_amounts_and_counts_nothing() {
    let mut bank = SpankBank::new(config(), RegistrationMode::Bootstrap);
    let mut credential = CredentialState { eligible: true, last_claim_timestamp: 0 };
    bank.claim(1, &mut credential, 60).unwrap();
    let before = bank.record(1);
    let (primary, bonus) = bank.mint(Amount::from_tokens(1000), Amount::from_subunits(5));
    assert_eq!(primary, Asset { kind: AssetKind::Primary, amount: Amount::from_tokens(1000) });
    assert_eq!(bonus, Asset { kind: AssetKind::Bonus, amount: Amount::from_subunits(5) });
    assert_eq!(bank.record(1), before);
    assert_eq!(bank.next_identifier(), 0);
}

#[test]
fn new_engine_is_empty() {
    let bank = SpankBank::new(config(), RegistrationMode::PreRegistered);
    assert_eq!(bank.config(), config());
    assert_eq!(bank.registration(), RegistrationMode::PreRegistered);
    assert_eq!(bank.next_identifier(), 0);
    assert_eq!(bank.record(0), None);
    assert_eq!(bank.config().bonus_schedule().bonus_step(13), Some(2));
    assert_eq!(bank.config().paid_claim_amount(), Amount::from_tokens(5));
}

#[test]
fn ledger_resolve_bootstraps_once() {
    let mut ledger = AccountLedger::new(RegistrationMode::Bootstrap);
    assert_eq!(ledger.get(5), None);
    assert_eq!(ledger.look_up(5), Ok(AccountRecord::new()));
    assert_eq!(ledger.get(5), None);
    assert_eq!(ledger.resolve(5), Ok(AccountRecord::new()));
    assert_eq!(ledger.get(5), Some(AccountRecord::new()));

    let changed = AccountRecord { claims: 4, burned_count: 2, ..AccountRecord::new() };
    ledger.persist(5, changed);
    assert_eq!(ledger.resolve(5), Ok(changed));
    assert_eq!(ledger.get(5), Some(changed));
    ledger.register(5);
    assert_eq!(ledger.get(5), Some(changed));
    assert_eq!(ledger.registration_mode(), RegistrationMode::Bootstrap);
}

#[test]
fn ledger_resolve_needs_registration() {
    let mut ledger = AccountLedger::new(RegistrationMode::PreRegistered);
    assert_eq!(ledger.resolve(5), Err(EngineError::UnknownAccount));
    assert_eq!(ledger.look_up(5), Err(EngineError::UnknownAccount));
    assert_eq!(ledger.get(5), None);
    ledger.register(5);
    assert_eq!(ledger.resolve(5), Ok(AccountRecord::new()));
    assert_eq!(ledger.get(6), None);
}

#[test]
fn record_headroom() {
    let fresh = AccountRecord::new();
    assert!(fresh.has_room_for_claim());
    assert!(fresh.has_room_for_burn());
    assert_eq!(fresh.total_bonuses(), 0);
    let full = AccountRecord { claims: u64::MAX - 1, ..fresh };
    assert!(!full.has_room_for_claim());
    let tallied = AccountRecord { bonus_free_count: u32::MAX, bonus_paid_count: u32::MAX, ..fresh };
    assert!(!tallied.has_room_for_claim());
    assert!(!tallied.has_room_for_burn());
    assert_eq!(tallied.total_bonuses(), 2 * (u32::MAX as u64));
}

#[test]
fn amounts() {
    assert_eq!(Amount::zero().subunits, 0);
    assert_eq!(Amount::from_tokens(1).subunits, 1_000_000_000_000_000_000);
    assert_eq!(Amount::from_tokens(u64::MAX).subunits, u64::MAX as u128 * SUBUNITS_PER_TOKEN);
    assert_eq!(Amount::from_subunits(17).subunits, 17);
    assert!(Amount::from_tokens(2).covers(Amount::from_tokens(2)));
    assert!(!Amount::from_tokens(2).covers(Amount::from_subunits(2 * SUBUNITS_PER_TOKEN + 1)));
    assert_eq!(Amount::from_tokens(5).take(Amount::from_tokens(1)), Some(Amount::from_tokens(4)));
    assert_eq!(Amount::from_tokens(1).take(Amount::from_tokens(1)), Some(Amount::zero()));
    assert_eq!(Amount::from_tokens(1).take(Amount::from_tokens(2)), None);
}

#[test]
fn every_error_has_its_reason() {
    assert_eq!(EngineError::InvalidCredential.reason(), "You have no dick");
    assert_eq!(EngineError::TooSoon.reason(), "Too soon to claim again");
    assert_eq!(EngineError::GroupQuotaExceeded.reason(), "No more free claims today");
    assert_eq!(EngineError::WrongAsset.reason(), "Wrong coin");
    assert_eq!(EngineError::InsufficientPayment.reason(), "Insufficient payment");
    assert_eq!(EngineError::UnknownAccount.reason(), "Unknown account");
    assert_eq!(EngineError::NoRecipient.reason(), "No recipient accepted delivery");
}
