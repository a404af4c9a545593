//! The bonus threshold schedule.
//!
//! The schedule is the sequence `t_1, t_2, ...` of claim counts at which a
//! bonus is due. It starts at `first_threshold`, and the gap between step `n`
//! and step `n + 1` is `fixed_increment + n * growing_increment`. Nothing is
//! stored between evaluations: the schedule is walked from its first step each
//! time a claim count is tested.

use vstd::prelude::*;

verus! {

/// The largest claim count that can be tested against a schedule. The index of
/// the step a count lands on never exceeds the count by more than one, so below
/// this bound every index fits in 64 bits.
pub const MAX_CLAIMS: u64 = 0xffff_ffff_ffff_fffe;

/// The distance from step `n` to step `n + 1`.
pub open spec fn step_gap(fixed: nat, growing: nat, n: nat) -> nat {
    fixed + n * growing
}

/// The claim count of step `n` of the schedule, for `n >= 1`.
pub open spec fn threshold(first: nat, fixed: nat, growing: nat, n: nat) -> nat
    decreases n,
{
    if n <= 1 {
        first
    } else {
        threshold(first, fixed, growing, (n - 1) as nat) + step_gap(fixed, growing, (n - 1) as nat)
    }
}

/// `claims` is exactly the claim count of step `n`.
pub open spec fn lands_on(first: nat, fixed: nat, growing: nat, claims: nat, n: nat) -> bool {
    n >= 1 && threshold(first, fixed, growing, n) == claims
}

/// `n` is the earliest step whose claim count is `claims`.
pub open spec fn first_landing(first: nat, fixed: nat, growing: nat, claims: nat, n: nat) -> bool {
    &&& lands_on(first, fixed, growing, claims, n)
    &&& forall|m: nat| lands_on(first, fixed, growing, claims, m) ==> n <= m
}

/// `claims` is the claim count of some step.
pub open spec fn is_step(first: nat, fixed: nat, growing: nat, claims: nat) -> bool {
    exists|n: nat| lands_on(first, fixed, growing, claims, n)
}

/// The index of the earliest step that `claims` lands on, if it lands on one.
pub open spec fn step_index(first: nat, fixed: nat, growing: nat, claims: nat) -> Option<nat> {
    if is_step(first, fixed, growing, claims) {
        Some(choose|n: nat| first_landing(first, fixed, growing, claims, n))
    } else {
        None
    }
}

/// Every step is the one before it plus the gap that belongs to the index of
/// the one before it.
pub proof fn lemma_threshold_step(first: nat, fixed: nat, growing: nat, n: nat)
    requires
        n >= 1,
    ensures
        threshold(first, fixed, growing, n + 1) == threshold(first, fixed, growing, n) + step_gap(
            fixed,
            growing,
            n,
        ),
{
}

/// The schedule never decreases.
pub proof fn lemma_threshold_monotonic(first: nat, fixed: nat, growing: nat, i: nat, j: nat)
    requires
        i <= j,
    ensures
        threshold(first, fixed, growing, i) <= threshold(first, fixed, growing, j),
    decreases j,
{
    if j > i && j > 1 {
        lemma_threshold_monotonic(first, fixed, growing, i, (j - 1) as nat);
    }
}

/// Between two steps the schedule rises by at least one per step as soon as
/// one of the two increments is positive.
pub proof fn lemma_threshold_rises(first: nat, fixed: nat, growing: nat, i: nat, j: nat)
    requires
        1 <= i <= j,
        fixed > 0 || growing > 0,
    ensures
        threshold(first, fixed, growing, i) + (j - i) <= threshold(first, fixed, growing, j),
    decreases j,
{
    if j > i {
        lemma_threshold_rises(first, fixed, growing, i, (j - 1) as nat);
        lemma_gap_positive(fixed, growing, (j - 1) as nat);
    }
}

/// From step 1 on, the gap is positive as soon as one increment is.
pub proof fn lemma_gap_positive(fixed: nat, growing: nat, n: nat)
    requires
        n >= 1,
        fixed > 0 || growing > 0,
    ensures
        step_gap(fixed, growing, n) >= 1,
{
    assert(n * growing >= growing) by (nonlinear_arith)
        requires
            n >= 1,
    ;
}

/// With both increments zero every step equals the first.
pub proof fn lemma_threshold_flat(first: nat, n: nat)
    ensures
        threshold(first, 0, 0, n) == first,
    decreases n,
{
    if n > 1 {
        lemma_threshold_flat(first, (n - 1) as nat);
        assert(((n - 1) as nat) * 0 == 0) by (nonlinear_arith);
    }
}

/// Step `n` in closed form, doubled so that it holds no division: the first
/// step, `n - 1` fixed increments, and the growing increment once for the
/// first gap, twice for the second, and so on up to `n - 1` times.
pub proof fn lemma_threshold_closed_form(first: nat, fixed: nat, growing: nat, n: nat)
    requires
        n >= 1,
    ensures
        2 * threshold(first, fixed, growing, n) == 2 * first + 2 * ((n - 1) * fixed) + (n - 1) * n
            * growing,
    decreases n,
{
    if n > 1 {
        let k = (n - 1) as nat;
        lemma_threshold_closed_form(first, fixed, growing, k);
        assert((k - 1) * fixed + fixed == k * fixed) by (nonlinear_arith);
        assert((k - 1) * k * growing + 2 * (k * growing) == k * (k + 1) * growing)
            by (nonlinear_arith);
    } else {
        assert(0 * fixed == 0) by (nonlinear_arith);
        assert(0 * 1 * growing == 0) by (nonlinear_arith);
    }
}

/// The earliest landing is the index that `step_index` names.
pub proof fn lemma_step_index_is(first: nat, fixed: nat, growing: nat, claims: nat, n: nat)
    requires
        first_landing(first, fixed, growing, claims, n),
    ensures
        step_index(first, fixed, growing, claims) == Some(n),
{
    let k = choose|k: nat| first_landing(first, fixed, growing, claims, k);
    assert(lands_on(first, fixed, growing, claims, n));
    assert(first_landing(first, fixed, growing, claims, k));
    assert(lands_on(first, fixed, growing, claims, k));
}

/// A count that lies strictly between step `n` and step `n + 1`, or before
/// step 1, is no step.
pub proof fn lemma_between_steps(first: nat, fixed: nat, growing: nat, claims: nat, n: nat)
    requires
        n >= 1,
        forall|m: nat| 1 <= m <= n ==> threshold(first, fixed, growing, m) < claims,
        claims < threshold(first, fixed, growing, n + 1),
    ensures
        !is_step(first, fixed, growing, claims),
{
    assert forall|m: nat| !lands_on(first, fixed, growing, claims, m) by {
        if m > n {
            lemma_threshold_monotonic(first, fixed, growing, n + 1, m);
        }
    }
}

/// The three scalars that fix a schedule.
#[derive(Clone, Copy, Debug, PartialEq, Eq, Structural)]
pub struct ThresholdSchedule {
    /// The claim count of step 1.
    pub first_threshold: u32,
    /// The part of every gap that does not depend on the step.
    pub fixed_increment: u32,
    /// The part of the gap after step `n` that is taken `n` times.
    pub growing_increment: u32,
}

impl ThresholdSchedule {
    /// The claim count of step `n`.
    pub open spec fn threshold(self, n: nat) -> nat {
        threshold(
            self.first_threshold as nat,
            self.fixed_increment as nat,
            self.growing_increment as nat,
            n,
        )
    }

    /// `claims` is the claim count of some step.
    pub open spec fn is_step(self, claims: nat) -> bool {
        is_step(
            self.first_threshold as nat,
            self.fixed_increment as nat,
            self.growing_increment as nat,
            claims,
        )
    }

    /// The index of the earliest step that `claims` lands on.
    pub open spec fn step_index(self, claims: nat) -> Option<nat> {
        step_index(
            self.first_threshold as nat,
            self.fixed_increment as nat,
            self.growing_increment as nat,
            claims,
        )
    }

    /// The claim count of step `n`, or `None` where it is beyond 64 bits.
    /// Steps are counted from 1; for `n = 0` the answer is that of step 1.
    pub fn threshold_at(&self, n: u64) -> (t: Option<u64>)
        ensures
            match t {
                Some(count) => count == self.threshold(n as nat),
                None => self.threshold(n as nat) > u64::MAX,
            },
    {
        let ghost first = self.first_threshold as nat;
        let ghost fixed = self.fixed_increment as nat;
        let ghost growing = self.growing_increment as nat;
        if n == 0 {
            return Some(self.first_threshold as u64);
        }
        let k: u64 = n - 1;
        proof {
            lemma_threshold_closed_form(first, fixed, growing, n as nat);
        }
        if self.growing_increment > 0 && k >= 0x2_0000_0000 {
            proof {
                assert(k * (k + 1) * growing >= 0x2_0000_0000 * 0x2_0000_0000) by (nonlinear_arith)
                    requires
                        k >= 0x2_0000_0000,
                        growing >= 1,
                ;
                assert(k * fixed >= 0) by (nonlinear_arith)
                    requires
                        k >= 0,
                        fixed >= 0,
                ;
            }
            return None;
        }
        let wide: u128 = k as u128;
        assert(wide * (self.fixed_increment as u128) <= 0xffff_ffff_ffff_ffff * 0xffff_ffff)
            by (nonlinear_arith)
            requires
                wide <= 0xffff_ffff_ffff_ffff,
                self.fixed_increment <= 0xffff_ffff,
        ;
        let linear: u128 = self.first_threshold as u128 + wide * (self.fixed_increment as u128);
        let total: u128 = if self.growing_increment == 0 {
            proof {
                assert(k * (k + 1) * 0 == 0) by (nonlinear_arith);
            }
            linear
        } else {
            assert(wide * (wide + 1) <= 0x1_ffff_ffff * 0x2_0000_0000) by (nonlinear_arith)
                requires
                    wide <= 0x1_ffff_ffff,
            ;
            let pairs: u128 = wide * (wide + 1);
            assert(pairs * (self.growing_increment as u128) <= 0x1_ffff_ffff * 0x2_0000_0000
                * 0xffff_ffff) by (nonlinear_arith)
                requires
                    pairs <= 0x1_ffff_ffff * 0x2_0000_0000,
                    self.growing_increment <= 0xffff_ffff,
            ;
            linear + pairs * (self.growing_increment as u128) / 2
        };
        assert(total == self.threshold(n as nat));
        if total > u64::MAX as u128 {
            None
        } else {
            Some(total as u64)
        }
    }

    /// Tests a claim count against the schedule: the index of the step it
    /// lands on exactly, or `None` where it lies before, between or beyond the
    /// steps.
    pub fn bonus_step(&self, claims: u64) -> (r: Option<u64>)
        requires
            claims <= MAX_CLAIMS,
        ensures
            r.is_some() == self.is_step(claims as nat),
            match r {
                Some(n) => self.step_index(claims as nat) == Some(n as nat),
                None => self.step_index(claims as nat).is_none(),
            },
    {
        let ghost first = self.first_threshold as nat;
        let ghost fixed = self.fixed_increment as nat;
        let ghost growing = self.growing_increment as nat;
        let start: u64 = self.first_threshold as u64;
        if start > claims {
            proof {
                assert forall|m: nat| !lands_on(first, fixed, growing, claims as nat, m) by {
                    if m >= 1 {
                        lemma_threshold_monotonic(first, fixed, growing, 1, m);
                    }
                }
            }
            return None;
        }
        if start == claims {
            proof {
                assert(lands_on(first, fixed, growing, claims as nat, 1));
                lemma_step_index_is(first, fixed, growing, claims as nat, 1);
            }
            return Some(1);
        }
        if self.fixed_increment == 0 && self.growing_increment == 0 {
            proof {
                assert forall|m: nat| !lands_on(first, fixed, growing, claims as nat, m) by {
                    lemma_threshold_flat(first, m);
                }
            }
            return None;
        }
        let mut n: u64 = 1;
        let mut t: u64 = start;
        while t < claims
            invariant
                first == self.first_threshold as nat,
                fixed == self.fixed_increment as nat,
                growing == self.growing_increment as nat,
                fixed > 0 || growing > 0,
                claims <= MAX_CLAIMS,
                1 <= n,
                t <= claims,
                t == threshold(first, fixed, growing, n as nat),
                first + (n - 1) <= t,
                forall|m: nat| 1 <= m < n ==> threshold(first, fixed, growing, m) < claims,
            decreases claims - t,
        {
            assert((n as u128) * (self.growing_increment as u128) <= 0xffff_ffff_ffff_ffff
                * 0xffff_ffff) by (nonlinear_arith)
                requires
                    n <= 0xffff_ffff_ffff_ffff,
                    self.growing_increment <= 0xffff_ffff,
            ;
            let grown: u128 = (n as u128) * (self.growing_increment as u128);
            let gap: u128 = self.fixed_increment as u128 + grown;
            let next: u128 = t as u128 + gap;
            proof {
                lemma_threshold_step(first, fixed, growing, n as nat);
                lemma_gap_positive(fixed, growing, n as nat);
                assert(next == threshold(first, fixed, growing, (n + 1) as nat));
            }
            if next > claims as u128 {
                proof {
                    lemma_between_steps(first, fixed, growing, claims as nat, n as nat);
                }
                return None;
            }
            t = next as u64;
            n = n + 1;
        }
        proof {
            assert(lands_on(first, fixed, growing, claims as nat, n as nat));
            assert forall|m: nat| lands_on(first, fixed, growing, claims as nat, m) implies n
                <= m by {}
            lemma_step_index_is(first, fixed, growing, claims as nat, n as nat);
        }
        Some(n)
    }
}

} // verus!
