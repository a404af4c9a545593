//! Laws of the engine, proved over the functions that its contracts speak of.

use crate::account::{looked_up, AccountRecord};
use crate::claim_policy::{claimed, counted_record, window_elapsed, ClaimOutcome};
use crate::config::{Cadence, ScheduleConfig};
use crate::credential::CredentialState;
use crate::engine::EngineState;
use crate::error::EngineError;
use crate::issuance::{is_issued, issued_identifiers};
use crate::redemption_policy::{burned_record, paid, Asset};
use crate::schedule::{
    lands_on, lemma_threshold_rises, lemma_threshold_step, threshold, ThresholdSchedule,
    MAX_CLAIMS,
};
use vstd::prelude::*;

verus! {

/// Each step of the schedule is made of the step before it and of that step's
/// index, and of nothing else.
pub proof fn law_step_from_previous(first: nat, fixed: nat, growing: nat, n: nat)
    requires
        n >= 1,
    ensures
        threshold(first, fixed, growing, 1) == first,
        threshold(first, fixed, growing, n + 1) == threshold(first, fixed, growing, n) + fixed + n
            * growing,
{
    lemma_threshold_step(first, fixed, growing, n);
}

/// The schedule rises strictly from step to step, unless both increments are
/// zero.
pub proof fn law_schedule_strictly_increasing(first: nat, fixed: nat, growing: nat, i: nat, j: nat)
    requires
        1 <= i < j,
        fixed > 0 || growing > 0,
    ensures
        threshold(first, fixed, growing, i) < threshold(first, fixed, growing, j),
{
    lemma_threshold_rises(first, fixed, growing, i, j);
}

/// On a schedule that rises, a claim count lands on one step at most: no step
/// is met twice.
pub proof fn law_one_step_per_count(
    first: nat,
    fixed: nat,
    growing: nat,
    claims: nat,
    n: nat,
    m: nat,
)
    requires
        fixed > 0 || growing > 0,
        lands_on(first, fixed, growing, claims, n),
        lands_on(first, fixed, growing, claims, m),
    ensures
        n == m,
{
    if n < m {
        lemma_threshold_rises(first, fixed, growing, n, m);
    } else if m < n {
        lemma_threshold_rises(first, fixed, growing, m, n);
    }
}

/// Counting a claim moves the claim count up by exactly one, and grants a
/// bonus exactly when the new count is a step of the schedule.
pub proof fn law_count_by_one(config: ScheduleConfig, record: AccountRecord)
    requires
        record.can_claim(),
    ensures
        counted_record(config, record).claims == record.claims + 1,
        config.schedule().is_step((record.claims + 1) as nat) ==> counted_record(
            config,
            record,
        ).bonus_free_count == record.bonus_free_count + 1,
        !config.schedule().is_step((record.claims + 1) as nat) ==> counted_record(
            config,
            record,
        ).bonus_free_count == record.bonus_free_count,
        counted_record(config, record).claims_in_current_group == record.claims_in_current_group,
        counted_record(config, record).burned_count == record.burned_count,
        counted_record(config, record).bonus_paid_count == record.bonus_paid_count,
{
}

/// A timed claim that succeeds moves the claim count up by exactly one and
/// answers with a bonus exactly when the new count is a step of the schedule.
/// One that fails is one of the three refusals of a timed claim.
pub proof fn law_claim_counts_once(
    config: ScheduleConfig,
    record: AccountRecord,
    credential: CredentialState,
    now: i64,
)
    requires
        record.can_claim(),
    ensures
        match claimed(config, record, credential, now) {
            Ok(outcome) => {
                &&& outcome.record.claims == record.claims + 1
                &&& outcome.receipt.claims == record.claims + 1
                &&& outcome.receipt.primary_reward == config.reward_per_claim
                &&& outcome.receipt.bonus.is_some() == config.schedule().is_step(
                    (record.claims + 1) as nat,
                )
                &&& outcome.receipt.bonus.is_some() ==> outcome.receipt.bonus.unwrap().amount
                    == config.bonus_reward_amount
            },
            Err(e) => e == EngineError::InvalidCredential || e == EngineError::TooSoon || e
                == EngineError::GroupQuotaExceeded,
        },
{
}

/// The account after the timed claims attempted at `times`, one after the
/// other, and the number of them that succeeded.
pub open spec fn replayed(
    config: ScheduleConfig,
    record: AccountRecord,
    credential: CredentialState,
    times: Seq<i64>,
) -> (AccountRecord, CredentialState, nat)
    decreases times.len(),
{
    if times.len() == 0 {
        (record, credential, 0)
    } else {
        let (before, stamped, successes) = replayed(config, record, credential, times.drop_last());
        match claimed(config, before, stamped, times.last()) {
            Ok(outcome) => (outcome.record, outcome.credential, successes + 1),
            Err(_) => (before, stamped, successes),
        }
    }
}

/// Over any sequence of attempted claims the claim count goes up by the number
/// of claims that succeeded, and by nothing else.
pub proof fn law_claims_count_successes(
    config: ScheduleConfig,
    record: AccountRecord,
    credential: CredentialState,
    times: Seq<i64>,
)
    requires
        record.claims + times.len() <= MAX_CLAIMS,
        record.bonus_free_count + times.len() <= u32::MAX,
    ensures
        replayed(config, record, credential, times).0.claims == record.claims + replayed(
            config,
            record,
            credential,
            times,
        ).2,
        replayed(config, record, credential, times).2 <= times.len(),
        replayed(config, record, credential, times).0.bonus_free_count <= record.bonus_free_count
            + replayed(config, record, credential, times).2,
    decreases times.len(),
{
    if times.len() > 0 {
        law_claims_count_successes(config, record, credential, times.drop_last());
        let (before, stamped, successes) = replayed(config, record, credential, times.drop_last());
        law_claim_counts_once(config, before, stamped, times.last());
    }
}

/// Under the interval cadence a claim made before the interval has passed is
/// refused with `TooSoon`, and the engine is left as it was.
pub proof fn law_too_soon_changes_nothing(
    state: EngineState,
    identity: u64,
    credential: CredentialState,
    now: i64,
    interval: i64,
)
    requires
        state.config.cadence == (Cadence::Interval { claim_interval_seconds: interval }),
        credential.eligible,
        looked_up(state.records, state.registration, identity).is_ok(),
        now < credential.last_claim_timestamp + interval,
    ensures
        state.claim_outcome(identity, credential, now) == Err::<ClaimOutcome, EngineError>(
            EngineError::TooSoon,
        ),
        state.after_claim(identity, credential, now) == state,
{
}

/// Whatever the reason, a refused operation leaves the engine as it was.
pub proof fn law_refusal_changes_nothing(
    state: EngineState,
    identity: u64,
    credential: CredentialState,
    now: i64,
    asset: Asset,
)
    ensures
        state.claim_outcome(identity, credential, now).is_err() ==> state.after_claim(
            identity,
            credential,
            now,
        ) == state,
        state.burn_outcome(identity, credential, asset).is_err() ==> state.after_burn(
            identity,
            credential,
            asset,
        ) == state,
        state.paid_claim_outcome(identity, credential, asset).is_err() ==> state.after_paid_claim(
            identity,
            credential,
            asset,
        ) == state,
{
}

/// Under the interval cadence a claim made at the very second at which the
/// interval has passed succeeds, and the new window opens at that second.
pub proof fn law_boundary_is_inclusive(
    config: ScheduleConfig,
    record: AccountRecord,
    credential: CredentialState,
    now: i64,
    interval: i64,
)
    requires
        config.cadence == (Cadence::Interval { claim_interval_seconds: interval }),
        credential.eligible,
        now == credential.last_claim_timestamp + interval,
    ensures
        claimed(config, record, credential, now).is_ok(),
        claimed(config, record, credential, now).unwrap().credential.last_claim_timestamp == now,
{
    assert(window_elapsed(credential.last_claim_timestamp, interval, now));
}

/// Under the interval cadence an eligible credential can claim exactly from
/// the end of the interval on.
pub proof fn law_interval_decides(
    config: ScheduleConfig,
    record: AccountRecord,
    credential: CredentialState,
    now: i64,
    interval: i64,
)
    requires
        config.cadence == (Cadence::Interval { claim_interval_seconds: interval }),
        credential.eligible,
    ensures
        claimed(config, record, credential, now).is_ok() <==> credential.last_claim_timestamp
            + interval <= now,
        claimed(config, record, credential, now).is_err() ==> claimed(
            config,
            record,
            credential,
            now,
        ) == Err::<ClaimOutcome, EngineError>(EngineError::TooSoon),
{
}

/// After the settings were replaced, what an operation comes to depends on the
/// new configuration alone: two engines that hold the same records come to the
/// same, whatever their configurations were before.
pub proof fn law_settings_replaced_whole(
    one: EngineState,
    other: EngineState,
    config: ScheduleConfig,
    identity: u64,
    credential: CredentialState,
    now: i64,
    asset: Asset,
)
    requires
        one.records == other.records,
        one.registration == other.registration,
    ensures
        (EngineState { config, ..one }).claim_outcome(identity, credential, now) == (EngineState {
            config,
            ..other
        }).claim_outcome(identity, credential, now),
        (EngineState { config, ..one }).burn_outcome(identity, credential, asset) == (EngineState {
            config,
            ..other
        }).burn_outcome(identity, credential, asset),
        (EngineState { config, ..one }).paid_claim_outcome(identity, credential, asset)
            == (EngineState { config, ..other }).paid_claim_outcome(identity, credential, asset),
        (EngineState { config, ..one }).config == config,
{
}

/// A stored count of burned tokens never stays at the cost of a bonus: the
/// burn that reaches the cost sets it back to zero.
pub proof fn law_burned_count_resets(config: ScheduleConfig, record: AccountRecord)
    ensures
        burned_record(config, record).burned_count == 0 || burned_record(
            config,
            record,
        ).burned_count < config.burn_cost_for_bonus,
        burned_record(config, record).burned_count == 0 || burned_record(
            config,
            record,
        ).burned_count == record.burned_count + 1,
        burned_record(config, record).claims == record.claims,
{
}

/// A paid claim is counted exactly as a timed claim is, whatever the time and
/// the window.
pub proof fn law_paid_claim_counts_as_claim(
    config: ScheduleConfig,
    record: AccountRecord,
    credential: CredentialState,
    asset: Asset,
)
    ensures
        paid(config, record, credential, asset).is_ok() ==> {
            &&& paid(config, record, credential, asset).unwrap().record == counted_record(
                config,
                record,
            )
            &&& paid(
                config,
                record,
                credential,
                asset,
            ).unwrap().receipt.payment.amount@ + paid(
                config,
                record,
                credential,
                asset,
            ).unwrap().receipt.remainder.amount@ == asset.amount@
        },
{
}

/// No operation removes a record.
pub proof fn law_records_stay(
    state: EngineState,
    identity: u64,
    credential: CredentialState,
    now: i64,
    asset: Asset,
    deliveries: Seq<bool>,
    other: u64,
)
    requires
        state.records.contains_key(other),
    ensures
        state.after_claim(identity, credential, now).records.contains_key(other),
        state.after_burn(identity, credential, asset).records.contains_key(other),
        state.after_paid_claim(identity, credential, asset).records.contains_key(other),
        state.after_issue(deliveries).records.contains_key(other),
        other != identity ==> {
            &&& state.after_claim(identity, credential, now).records[other]
                == state.records[other]
            &&& state.after_burn(identity, credential, asset).records[other]
                == state.records[other]
            &&& state.after_paid_claim(identity, credential, asset).records[other]
                == state.records[other]
        },
        state.after_issue(deliveries).records[other] == state.records[other],
{
}

/// A batch issues no identifier exactly when no delivery of it was accepted,
/// and never more identifiers than it has recipients.
pub proof fn law_none_issued_when_none_accepted(first: nat, deliveries: Seq<bool>)
    ensures
        issued_identifiers(first, deliveries).len() == 0 <==> forall|i: int|
            0 <= i < deliveries.len() ==> !deliveries[i],
        issued_identifiers(first, deliveries).len() <= deliveries.len(),
    decreases deliveries.len(),
{
    if deliveries.len() > 0 {
        let before = deliveries.drop_last();
        law_none_issued_when_none_accepted(first, before);
        if issued_identifiers(first, deliveries).len() == 0 {
            assert forall|i: int| 0 <= i < deliveries.len() implies !deliveries[i] by {
                if i < before.len() {
                    assert(before[i] == deliveries[i]);
                }
            }
        } else if !deliveries.last() {
            let i = choose|i: int| 0 <= i < before.len() && before[i];
            assert(deliveries[i]);
        }
    }
}

/// An identifier is among those issued exactly when it was offered in the
/// batch and accepted.
pub proof fn law_issued_are_the_accepted(first: nat, deliveries: Seq<bool>, identity: u64)
    requires
        first + deliveries.len() <= u64::MAX,
    ensures
        issued_identifiers(first, deliveries).contains(identity) <==> is_issued(
            first,
            deliveries,
            identity,
        ),
    decreases deliveries.len(),
{
    if deliveries.len() > 0 {
        let before = deliveries.drop_last();
        let ids = issued_identifiers(first, before);
        law_issued_are_the_accepted(first, before, identity);
        let last = (first + deliveries.len() - 1) as u64;
        if deliveries.last() {
            let all = ids.push(last);
            if all.contains(identity) {
                let k = choose|k: int| 0 <= k < all.len() && all[k] == identity;
                if k < ids.len() {
                    assert(ids[k] == identity);
                    assert(ids.contains(identity));
                }
            }
            if is_issued(first, deliveries, identity) {
                if identity == last {
                    assert(all[ids.len() as int] == identity);
                } else {
                    assert(is_issued(first, before, identity));
                    let k = choose|k: int| 0 <= k < ids.len() && ids[k] == identity;
                    assert(all[k] == identity);
                }
            }
        } else {
            if is_issued(first, deliveries, identity) {
                assert(identity != last);
                assert(is_issued(first, before, identity));
            }
        }
    } else {
        assert(!issued_identifiers(first, deliveries).contains(identity));
    }
}

/// The identifier of a delivery that was refused is used by no later batch.
pub proof fn law_refused_identifier_stays_unused(
    state: EngineState,
    deliveries: Seq<bool>,
    later: EngineState,
    later_deliveries: Seq<bool>,
    identity: u64,
)
    requires
        state.next_identifier + deliveries.len() <= u64::MAX,
        later.next_identifier + later_deliveries.len() <= u64::MAX,
        issued_identifiers(state.next_identifier as nat, deliveries).len() > 0,
        later.next_identifier >= state.after_issue(deliveries).next_identifier,
        state.next_identifier <= identity < state.next_identifier + deliveries.len(),
        !deliveries[identity - state.next_identifier],
    ensures
        state.after_issue(deliveries).next_identifier == state.next_identifier + deliveries.len(),
        !issued_identifiers(state.next_identifier as nat, deliveries).contains(identity),
        !issued_identifiers(later.next_identifier as nat, later_deliveries).contains(identity),
        !state.records.contains_key(identity) ==> !state.after_issue(
            deliveries,
        ).records.contains_key(identity),
{
    law_issued_are_the_accepted(state.next_identifier as nat, deliveries, identity);
    law_issued_are_the_accepted(later.next_identifier as nat, later_deliveries, identity);
}

/// Under the grouped cadence a claim inside a running window succeeds exactly
/// while the window has claims left, uses one of them and leaves the window
/// where it is; a claim at or after the end of the window succeeds, opens a
/// window at the time of the claim and is the first claim of it.
pub proof fn law_group_quota(
    config: ScheduleConfig,
    record: AccountRecord,
    credential: CredentialState,
    now: i64,
    size: u32,
    interval: i64,
)
    requires
        config.cadence == (Cadence::Grouped {
            claim_group_size: size,
            group_interval_seconds: interval,
        }),
        credential.eligible,
    ensures
        now < credential.last_claim_timestamp + interval ==> {
            &&& claimed(config, record, credential, now).is_ok()
                <==> record.claims_in_current_group < size
            &&& claimed(config, record, credential, now).is_err() ==> claimed(
                config,
                record,
                credential,
                now,
            ) == Err::<ClaimOutcome, EngineError>(EngineError::GroupQuotaExceeded)
            &&& claimed(config, record, credential, now).is_ok() ==> {
                &&& claimed(config, record, credential, now).unwrap().credential == credential
                &&& claimed(config, record, credential, now).unwrap().record.claims_in_current_group
                    == record.claims_in_current_group + 1
            }
        },
        now >= credential.last_claim_timestamp + interval ==> {
            &&& claimed(config, record, credential, now).is_ok()
            &&& claimed(config, record, credential, now).unwrap().credential.last_claim_timestamp
                == now
            &&& claimed(config, record, credential, now).unwrap().record.claims_in_current_group
                == 1
        },
{
}

/// What a claim count comes to on a schedule depends on the schedule and the
/// count alone: testing the same count again gives the same answer.
pub proof fn law_step_test_is_repeatable(
    one: ThresholdSchedule,
    other: ThresholdSchedule,
    claims: nat,
)
    requires
        one == other,
    ensures
        one.step_index(claims) == other.step_index(claims),
        one.is_step(claims) == other.is_step(claims),
        one.step_index(claims).is_some() == one.is_step(claims),
{
}

} // verus!
