//! Histories: what holds of a ledger after any sequence of operations.

use vstd::prelude::*;
use anchor_lang::prelude::Pubkey;
use crate::types::{CoverageLevel, PolicyType, RiskLevel};
use crate::ledger::{initial_pool, PoolView, TARGET_CAP};
use crate::lifecycle::{pool_after_purchase, purchase_refusal};

verus! {

/// One operation on the ledger, with the inputs that bear on its balances and counters.
pub enum Operation {
    Purchase {
        base_rate: nat,
        policy_type: PolicyType,
        coverage: CoverageLevel,
        duration: int,
        risk: RiskLevel,
    },
    Renew,
    Rebalance,
}

/// The ledger after one operation. A refused purchase and a renewal, which
/// changes a policy only, leave the ledger as it was.
pub open spec fn step(pool: PoolView, operation: Operation) -> PoolView {
    match operation {
        Operation::Purchase { base_rate, policy_type, coverage, duration, risk } => {
            if purchase_refusal(pool, duration) is Some {
                pool
            } else {
                pool_after_purchase(pool, base_rate, policy_type, coverage, risk)
            }
        },
        Operation::Renew => pool,
        Operation::Rebalance => pool.rebalance(),
    }
}

/// The ledger after a sequence of operations, carried out first to last.
pub open spec fn run(pool: PoolView, operations: Seq<Operation>) -> PoolView
    decreases operations.len(),
{
    if operations.len() == 0 {
        pool
    } else {
        step(run(pool, operations.drop_last()), operations.last())
    }
}

/// A purchase counts one policy more, under its own kind, whatever the rate,
/// the coverage and the balances; governance and pause flag stay.
pub proof fn lemma_purchase_counts_one_policy(
    pool: PoolView,
    base_rate: nat,
    policy_type: PolicyType,
    coverage: CoverageLevel,
    risk: RiskLevel,
)
    requires
        pool.counts_consistent(),
    ensures
        ({
            let after = pool_after_purchase(pool, base_rate, policy_type, coverage, risk);
            &&& after.total_policies == pool.total_policies + 1
            &&& after.policy_counts == pool.policy_counts.update(
                policy_type.spec_index(),
                pool.policy_counts[policy_type.spec_index()] + 1,
            )
            &&& after.counts_consistent()
            &&& after.governance == pool.governance
            &&& after.is_paused == pool.is_paused
        }),
{
}

/// A rebalancing moves capital only: counters, total, governance and pause flag
/// stay, whatever the balances.
pub proof fn lemma_rebalance_keeps_counters(pool: PoolView)
    ensures
        pool.rebalance().total_policies == pool.total_policies,
        pool.rebalance().policy_counts == pool.policy_counts,
        pool.rebalance().governance == pool.governance,
        pool.rebalance().is_paused == pool.is_paused,
        pool.counts_consistent() ==> pool.rebalance().counts_consistent(),
{
}

/// No operation breaks the ledger's invariant: where the counters per kind added
/// up to the number of policies sold before it, they do so after it.
pub proof fn lemma_step_keeps_counts(pool: PoolView, operation: Operation)
    requires
        pool.counts_consistent(),
    ensures
        step(pool, operation).counts_consistent(),
{
}

/// In every ledger that a sequence of operations reaches from a newly created
/// one, the counters per kind add up to the number of policies sold.
pub proof fn lemma_counts_add_up(governance: Pubkey, operations: Seq<Operation>)
    ensures
        run(initial_pool(governance), operations).counts_consistent(),
    decreases operations.len(),
{
    if operations.len() > 0 {
        lemma_counts_add_up(governance, operations.drop_last());
        lemma_step_keeps_counts(
            run(initial_pool(governance), operations.drop_last()),
            operations.last(),
        );
    }
}

/// After a rebalancing the low-risk bucket holds no more than the cap.
pub proof fn lemma_rebalance_caps_low_risk(pool: PoolView)
    ensures
        pool.rebalance().low_risk_reserves <= TARGET_CAP,
{
}

/// Rebalancing twice in a row gives the ledger that rebalancing once gives.
pub proof fn lemma_rebalance_idempotent(pool: PoolView)
    ensures
        pool.rebalance().rebalance() == pool.rebalance(),
{
}

/// A rebalancing keeps the capital in reserve but for the odd unit of an odd
/// excess, which leaves the ledger.
pub proof fn lemma_rebalance_rounding_loss(pool: PoolView)
    ensures
        pool.rebalance().total_reserves() + pool.excess() % 2 == pool.total_reserves(),
{
}

/// No operation lowers the number of policies sold.
pub proof fn lemma_step_keeps_total(pool: PoolView, operation: Operation)
    ensures
        step(pool, operation).total_policies >= pool.total_policies,
{
}

/// The number of policies sold never decreases: after any part of a sequence of
/// operations it is at most what it is after the whole sequence.
pub proof fn lemma_total_never_decreases(pool: PoolView, operations: Seq<Operation>, done: int)
    requires
        0 <= done <= operations.len(),
    ensures
        run(pool, operations.take(done)).total_policies <= run(pool, operations).total_policies,
    decreases operations.len() - done,
{
    if done == operations.len() {
        assert(operations.take(done) =~= operations);
    } else {
        lemma_total_never_decreases(pool, operations, done + 1);
        let further = operations.take(done + 1);
        assert(further.drop_last() =~= operations.take(done));
        lemma_step_keeps_total(run(pool, operations.take(done)), further.last());
    }
}

} // verus!
