//! The reserve ledger: three buckets of capital, the policy counters, and the
//! operations that move capital between buckets.

use vstd::prelude::*;
use anchor_lang::prelude::Pubkey;
use crate::types::{PolicyType, RiskLevel};

verus! {

/// The most capital the low-risk bucket keeps after a rebalancing.
pub const TARGET_CAP: u64 = 100_000;

/// The ledger of one deployment.
#[derive(Clone, Copy, Debug, PartialEq, Eq)]
pub struct ReservePool {
    pub low_risk_reserves: u64,
    pub medium_risk_reserves: u64,
    pub high_risk_reserves: u64,
    pub total_policies: u64,
    pub policy_counts: [u64; 3],
    pub governance: Pubkey,
    pub is_paused: bool,
}

/// The ledger as mathematics: balances and counters without machine bounds.
pub struct PoolView {
    pub low_risk_reserves: nat,
    pub medium_risk_reserves: nat,
    pub high_risk_reserves: nat,
    pub total_policies: nat,
    pub policy_counts: Seq<nat>,
    pub governance: Pubkey,
    pub is_paused: bool,
}

impl View for ReservePool {
    type V = PoolView;

    open spec fn view(&self) -> PoolView {
        PoolView {
            low_risk_reserves: self.low_risk_reserves as nat,
            medium_risk_reserves: self.medium_risk_reserves as nat,
            high_risk_reserves: self.high_risk_reserves as nat,
            total_policies: self.total_policies as nat,
            policy_counts: Seq::new(3, |i: int| self.policy_counts[i] as nat),
            governance: self.governance,
            is_paused: self.is_paused,
        }
    }
}

/// The ledger right after its creation: nothing in reserve, nothing sold, open
/// for purchases, governed by `governance`.
pub open spec fn initial_pool(governance: Pubkey) -> PoolView {
    PoolView {
        low_risk_reserves: 0,
        medium_risk_reserves: 0,
        high_risk_reserves: 0,
        total_policies: 0,
        policy_counts: seq![0nat, 0nat, 0nat],
        governance,
        is_paused: false,
    }
}

impl PoolView {
    /// The ledger's invariant: there is one counter per policy kind, and the
    /// counters add up to the number of policies sold.
    pub open spec fn counts_consistent(self) -> bool {
        &&& self.policy_counts.len() == 3
        &&& self.policy_counts[0] + self.policy_counts[1] + self.policy_counts[2]
            == self.total_policies
    }

    /// The balance of the bucket that backs the given risk class.
    pub open spec fn bucket(self, risk: RiskLevel) -> nat {
        match risk {
            RiskLevel::Low => self.low_risk_reserves,
            RiskLevel::Medium => self.medium_risk_reserves,
            RiskLevel::High => self.high_risk_reserves,
        }
    }

    /// The ledger after `amount` was paid into the bucket of the given risk
    /// class; the other two buckets and everything else stay as they were.
    pub open spec fn allocate(self, amount: nat, risk: RiskLevel) -> PoolView {
        match risk {
            RiskLevel::Low => PoolView {
                low_risk_reserves: self.low_risk_reserves + amount,
                ..self
            },
            RiskLevel::Medium => PoolView {
                medium_risk_reserves: self.medium_risk_reserves + amount,
                ..self
            },
            RiskLevel::High => PoolView {
                high_risk_reserves: self.high_risk_reserves + amount,
                ..self
            },
        }
    }

    /// The ledger after one more policy of the given kind was counted.
    pub open spec fn count_policy(self, policy_type: PolicyType) -> PoolView {
        PoolView {
            total_policies: self.total_policies + 1,
            policy_counts: self.policy_counts.update(
                policy_type.spec_index(),
                self.policy_counts[policy_type.spec_index()] + 1,
            ),
            ..self
        }
    }

    /// What the low-risk bucket holds above the cap; zero at or below it.
    pub open spec fn excess(self) -> nat {
        if self.low_risk_reserves > TARGET_CAP {
            (self.low_risk_reserves - TARGET_CAP) as nat
        } else {
            0
        }
    }

    /// The ledger after a rebalancing. Above the cap the low-risk bucket is cut
    /// to the cap, and half of the excess, rounded down, goes to each of the
    /// other two buckets: the odd unit of an odd excess leaves the ledger. At
    /// or below the cap nothing changes.
    pub open spec fn rebalance(self) -> PoolView {
        if self.low_risk_reserves > TARGET_CAP {
            PoolView {
                low_risk_reserves: TARGET_CAP as nat,
                medium_risk_reserves: self.medium_risk_reserves + self.excess() / 2,
                high_risk_reserves: self.high_risk_reserves + self.excess() / 2,
                ..self
            }
        } else {
            self
        }
    }

    /// All the capital in reserve, over the three buckets.
    pub open spec fn total_reserves(self) -> nat {
        self.low_risk_reserves + self.medium_risk_reserves + self.high_risk_reserves
    }

    /// The balances after a rebalancing fit the machine's integers.
    pub open spec fn rebalance_fits(self) -> bool {
        &&& self.medium_risk_reserves + self.excess() / 2 <= u64::MAX
        &&& self.high_risk_reserves + self.excess() / 2 <= u64::MAX
    }
}

impl ReservePool {
    /// The balance of the bucket that backs the given risk class.
    pub fn bucket(&self, risk: RiskLevel) -> (balance: u64)
        ensures
            balance == self@.bucket(risk),
    {
        match risk {
            RiskLevel::Low => self.low_risk_reserves,
            RiskLevel::Medium => self.medium_risk_reserves,
            RiskLevel::High => self.high_risk_reserves,
        }
    }

    /// Whether the counters per kind add up to the number of policies sold.
    pub fn is_consistent(&self) -> (ok: bool)
        ensures
            ok == self@.counts_consistent(),
    {
        let first: u128 = self.policy_counts[0] as u128;
        let second: u128 = self.policy_counts[1] as u128;
        let third: u128 = self.policy_counts[2] as u128;
        first + second + third == self.total_policies as u128
    }

    /// Whether a rebalancing would keep every balance within a `u64`.
    pub fn can_rebalance(&self) -> (ok: bool)
        ensures
            ok == self@.rebalance_fits(),
    {
        if self.low_risk_reserves > TARGET_CAP {
            let half: u64 = (self.low_risk_reserves - TARGET_CAP) / 2;
            half <= u64::MAX - self.medium_risk_reserves && half <= u64::MAX
                - self.high_risk_reserves
        } else {
            true
        }
    }
}

/// Creates the ledger: all balances and counters zero, open for purchases, with
/// `governance` as the identity that may ask for privileged operations.
pub fn initialize_pool(governance: Pubkey) -> (pool: ReservePool)
    ensures
        pool@ == initial_pool(governance),
        pool@.counts_consistent(),
{
    let pool = ReservePool {
        low_risk_reserves: 0,
        medium_risk_reserves: 0,
        high_risk_reserves: 0,
        total_policies: 0,
        policy_counts: [0; 3],
        governance,
        is_paused: false,
    };
    assert(pool@.policy_counts =~= seq![0nat, 0nat, 0nat]);
    pool
}

/// Pays `amount` into the bucket of the given risk class and touches nothing else.
pub fn allocate_to_risk_pool(pool: &mut ReservePool, amount: u64, risk: RiskLevel)
    requires
        old(pool)@.bucket(risk) + amount <= u64::MAX,
    ensures
        final(pool)@ == old(pool)@.allocate(amount as nat, risk),
{
    match risk {
        RiskLevel::Low => {
            pool.low_risk_reserves = pool.low_risk_reserves + amount;
        },
        RiskLevel::Medium => {
            pool.medium_risk_reserves = pool.medium_risk_reserves + amount;
        },
        RiskLevel::High => {
            pool.high_risk_reserves = pool.high_risk_reserves + amount;
        },
    }
}

/// Caps the low-risk bucket at `TARGET_CAP` and splits what was above it evenly
/// between the medium-risk and the high-risk bucket. The odd unit of an odd
/// excess is dropped. A bucket at or below the cap is left alone. Only the
/// governance may ask for this; who the caller is, the host establishes before
/// the call.
pub fn rebalance_reserves(pool: &mut ReservePool)
    requires
        old(pool)@.rebalance_fits(),
    ensures
        final(pool)@ == old(pool)@.rebalance(),
        final(pool).low_risk_reserves <= TARGET_CAP,
        final(pool).total_policies == old(pool).total_policies,
        final(pool).policy_counts == old(pool).policy_counts,
        final(pool).governance == old(pool).governance,
        final(pool).is_paused == old(pool).is_paused,
        old(pool)@.counts_consistent() ==> final(pool)@.counts_consistent(),
{
    if pool.low_risk_reserves > TARGET_CAP {
        let excess: u64 = pool.low_risk_reserves - TARGET_CAP;
        pool.low_risk_reserves = pool.low_risk_reserves - excess;
        pool.medium_risk_reserves = pool.medium_risk_reserves + excess / 2;
        pool.high_risk_reserves = pool.high_risk_reserves + excess / 2;
    }
}

} // verus!
