//! The policy lifecycle: purchase and renewal.
//!
//! Both operations decide and compute; neither moves money, reads a clock or
//! publishes anything. The caller reads the time once and hands it in, and
//! afterwards carries out what the result asks for.

use vstd::prelude::*;
use anchor_lang::prelude::Pubkey;
use crate::types::{CoverageLevel, MyError, PolicyType, RiskLevel};
use crate::pricing::{
    apply_early_bird_discount,
    calculate_premium_with_coverage,
    checked_premium,
    discounted,
    premium_of,
};
use crate::ledger::{allocate_to_risk_pool, PoolView, ReservePool};

verus! {

/// For this many seconds after its expiry a policy can still be renewed: seven days.
pub const GRACE_PERIOD: i64 = 604_800;

/// The record of one holder's policy.
#[derive(Clone, Copy, Debug, PartialEq, Eq)]
pub struct Policy {
    pub user: Pubkey,
    pub policy_type: PolicyType,
    pub coverage: CoverageLevel,
    pub purchase_time: i64,
    pub expiry_time: i64,
    pub referrer: Option<Pubkey>,
}

/// The notice that a policy was bought.
#[derive(Clone, Copy, Debug, PartialEq, Eq)]
pub struct PolicyPurchased {
    pub user: Pubkey,
    pub premium: u64,
    pub policy_type: PolicyType,
}

/// What a purchase leaves for the caller to do: store `policy`, move
/// `event.premium` from the buyer into the pool's custody, and publish `event`.
/// A referrer, where there is one, stands in `policy.referrer`; no reward is
/// paid for it.
#[derive(Clone, Copy, Debug, PartialEq, Eq)]
pub struct PurchaseReceipt {
    pub policy: Policy,
    pub event: PolicyPurchased,
}

/// What a buyer pays for a policy bought from the given ledger: the priced
/// premium after the early-adopter discount.
pub open spec fn purchase_premium(pool: PoolView, base_rate: nat, coverage: CoverageLevel) -> nat {
    discounted(premium_of(pool.total_policies, base_rate, coverage), pool.total_policies)
}

/// The ledger after a purchase: the premium is in the bucket of the policy's
/// risk class and the policy is counted.
pub open spec fn pool_after_purchase(
    pool: PoolView,
    base_rate: nat,
    policy_type: PolicyType,
    coverage: CoverageLevel,
    risk: RiskLevel,
) -> PoolView {
    pool.allocate(purchase_premium(pool, base_rate, coverage), risk).count_policy(policy_type)
}

/// The purchase stays within the machine's integers: the premium before the
/// discount, the bucket after the deposit, the policy counter and the expiry time.
pub open spec fn purchase_fits(
    pool: PoolView,
    now: int,
    base_rate: nat,
    coverage: CoverageLevel,
    duration: int,
    risk: RiskLevel,
) -> bool {
    &&& premium_of(pool.total_policies, base_rate, coverage) <= u64::MAX
    &&& pool.bucket(risk) + purchase_premium(pool, base_rate, coverage) <= u64::MAX
    &&& pool.total_policies < u64::MAX
    &&& i64::MIN <= now + duration <= i64::MAX
}

/// Why a purchase is refused, where it is: a halted pool refuses every purchase,
/// and an open pool refuses a duration below zero.
pub open spec fn purchase_refusal(pool: PoolView, duration: int) -> Option<MyError> {
    if pool.is_paused {
        Some(MyError::OperationPaused)
    } else if duration < 0 {
        Some(MyError::InvalidDuration)
    } else {
        None
    }
}

/// A policy can be renewed until the grace period after its expiry has run out.
pub open spec fn renewable(expiry_time: int, now: int) -> bool {
    expiry_time >= now - GRACE_PERIOD
}

/// The renewal stays within the machine's integers: the quoted premium and the
/// new expiry time.
pub open spec fn renewal_fits(
    policy: Policy,
    pool: PoolView,
    duration: int,
    renewal_discount: nat,
) -> bool {
    &&& premium_of(pool.total_policies, renewal_discount, policy.coverage) <= u64::MAX
    &&& i64::MIN <= policy.expiry_time + duration <= i64::MAX
}

impl ReservePool {
    /// Whether a purchase with these inputs would stay within the machine's integers.
    pub fn can_purchase(
        &self,
        now: i64,
        base_rate: u64,
        coverage: CoverageLevel,
        duration: i64,
        risk: RiskLevel,
    ) -> (ok: bool)
        ensures
            ok == purchase_fits(
                self@,
                now as int,
                base_rate as nat,
                coverage,
                duration as int,
                risk,
            ),
    {
        match checked_premium(self.total_policies, base_rate, coverage) {
            Some(priced) => {
                let premium: u64 = apply_early_bird_discount(priced, self.total_policies);
                premium <= u64::MAX - self.bucket(risk) && self.total_policies < u64::MAX
                    && now.checked_add(duration).is_some()
            },
            None => false,
        }
    }
}

impl Policy {
    /// Whether the policy can still be renewed at the time `now`.
    pub fn is_renewable(&self, now: i64) -> (ok: bool)
        ensures
            ok == renewable(self.expiry_time as int, now as int),
    {
        now < i64::MIN + GRACE_PERIOD || self.expiry_time >= now - GRACE_PERIOD
    }

    /// Whether a renewal with these inputs would stay within the machine's integers.
    pub fn can_renew(&self, pool: &ReservePool, duration: i64, renewal_discount: u64) -> (ok: bool)
        ensures
            ok == renewal_fits(*self, pool@, duration as int, renewal_discount as nat),
    {
        checked_premium(pool.total_policies, renewal_discount, self.coverage).is_some()
            && self.expiry_time.checked_add(duration).is_some()
    }
}

/// Sells a policy at the time `now`.
///
/// A halted pool refuses with `OperationPaused`. An open pool refuses a
/// `duration` below zero with `InvalidDuration`, so that no policy expires before
/// it began. A refusal leaves the ledger as it was, and nothing is to be stored,
/// moved or published. Otherwise the premium is priced from the number of
/// policies sold so far, discounted for early buyers and paid into the bucket of
/// `risk`; the policy is counted under its kind; and the receipt holds the new
/// policy record, running from `now` for `duration` seconds, and the notice to
/// publish. A referrer is recorded and has no effect on any balance.
pub fn purchase_insurance(
    pool: &mut ReservePool,
    user: Pubkey,
    now: i64,
    base_rate: u64,
    policy_type: PolicyType,
    coverage: CoverageLevel,
    duration: i64,
    risk: RiskLevel,
    referrer: Option<Pubkey>,
) -> (outcome: Result<PurchaseReceipt, MyError>)
    requires
        old(pool)@.counts_consistent(),
        purchase_refusal(old(pool)@, duration as int) is None ==> purchase_fits(
            old(pool)@,
            now as int,
            base_rate as nat,
            coverage,
            duration as int,
            risk,
        ),
    ensures
        match outcome {
            Ok(receipt) => {
                &&& !old(pool).is_paused
                &&& duration >= 0
                &&& final(pool)@ == pool_after_purchase(
                    old(pool)@,
                    base_rate as nat,
                    policy_type,
                    coverage,
                    risk,
                )
                &&& receipt.policy == (Policy {
                    user,
                    policy_type,
                    coverage,
                    purchase_time: now,
                    expiry_time: (now + duration) as i64,
                    referrer,
                })
                &&& receipt.event.user == user
                &&& receipt.event.premium == purchase_premium(
                    old(pool)@,
                    base_rate as nat,
                    coverage,
                )
                &&& receipt.event.policy_type == policy_type
            },
            Err(error) => {
                &&& purchase_refusal(old(pool)@, duration as int) == Some(error)
                &&& *final(pool) == *old(pool)
            },
        },
        final(pool)@.counts_consistent(),
        outcome is Ok ==> final(pool).total_policies == old(pool).total_policies + 1,
        outcome is Err ==> final(pool).total_policies == old(pool).total_policies,
{
    if pool.is_paused {
        return Err(MyError::OperationPaused);
    }
    if duration < 0 {
        return Err(MyError::InvalidDuration);
    }
    let premium: u64 = apply_early_bird_discount(
        calculate_premium_with_coverage(pool.total_policies, base_rate, coverage),
        pool.total_policies,
    );
    allocate_to_risk_pool(pool, premium, risk);

    let kind: usize = policy_type.index();
    let counted: u64 = pool.policy_counts[kind];
    pool.policy_counts[kind] = counted + 1;
    pool.total_policies = pool.total_policies + 1;
    assert(pool@.policy_counts =~= old(pool)@.policy_counts.update(
        kind as int,
        old(pool)@.policy_counts[kind as int] + 1,
    ));

    let policy = Policy {
        user,
        policy_type,
        coverage,
        purchase_time: now,
        expiry_time: now + duration,
        referrer,
    };
    let event = PolicyPurchased { user, premium, policy_type };
    Ok(PurchaseReceipt { policy, event })
}

/// Renews a policy at the time `now`, by `duration` seconds.
///
/// A policy whose expiry lies more than the grace period before `now` is
/// refused with `PolicyNotRenewable` and stays as it was. Otherwise its expiry
/// moves by `duration`, and the result is the premium quoted for the renewal:
/// priced at the rate `renewal_discount` from the number of policies sold so far
/// and the policy's own coverage. The quote is for the caller's books: nothing
/// is charged and no balance changes. That the policy is the caller's own, the
/// host establishes before the call.
pub fn renew_policy(
    policy: &mut Policy,
    pool: &ReservePool,
    now: i64,
    duration: i64,
    renewal_discount: u64,
) -> (outcome: Result<u64, MyError>)
    requires
        renewable(old(policy).expiry_time as int, now as int) ==> renewal_fits(
            *old(policy),
            pool@,
            duration as int,
            renewal_discount as nat,
        ),
    ensures
        match outcome {
            Ok(quote) => {
                &&& renewable(old(policy).expiry_time as int, now as int)
                &&& quote == premium_of(
                    pool@.total_policies,
                    renewal_discount as nat,
                    old(policy).coverage,
                )
                &&& *final(policy) == (Policy {
                    expiry_time: (old(policy).expiry_time + duration) as i64,
                    ..*old(policy)
                })
            },
            Err(error) => {
                &&& !renewable(old(policy).expiry_time as int, now as int)
                &&& error == MyError::PolicyNotRenewable
                &&& *final(policy) == *old(policy)
            },
        },
{
    if !policy.is_renewable(now) {
        return Err(MyError::PolicyNotRenewable);
    }
    let base_premium: u64 = calculate_premium_with_coverage(
        pool.total_policies,
        renewal_discount,
        policy.coverage,
    );
    policy.expiry_time = policy.expiry_time + duration;
    Ok(base_premium)
}

} // verus!
