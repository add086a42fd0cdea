//! The plain data of the ledger: policy kinds, coverage tiers, risk classes and errors.

use vstd::prelude::*;

verus! {

/// `anchor_lang::prelude::Pubkey`: the identity of a holder, a referrer or the
/// governance. The ledger stores and hands on such values and never looks inside.
#[verifier::external_type_specification]
#[verifier::external_body]
pub struct ExPubkey(anchor_lang::prelude::Pubkey);

/// What a policy insures against.
#[derive(Clone, Copy, Debug, PartialEq, Eq, Structural)]
pub enum PolicyType {
    FlightDelay,
    CropFailure,
    PropertyDamage,
}

/// The coverage tier of a policy; the tier scales the premium.
#[derive(Clone, Copy, Debug, PartialEq, Eq, Structural)]
pub enum CoverageLevel {
    Basic,
    Premium,
    Platinum,
}

/// The risk class that selects the reserve bucket a premium is paid into.
#[derive(Clone, Copy, Debug, PartialEq, Eq, Structural)]
pub enum RiskLevel {
    Low,
    Medium,
    High,
}

/// Why an operation was refused.
#[derive(Clone, Copy, Debug, PartialEq, Eq, Structural)]
pub enum MyError {
    /// Reserved for oracle integration; no operation returns it.
    InvalidEvent,
    /// Declared for a reserve floor; no operation enforces one, so none returns it.
    InsufficientFunds,
    /// A privileged operation was asked for by someone other than the governance.
    /// The host checks the caller; no operation here returns it.
    Unauthorized,
    /// The pool is halted and takes no purchases.
    OperationPaused,
    /// Renewal was asked for after the grace period had run out.
    PolicyNotRenewable,
    /// A purchase was asked for with a duration below zero: a mistake of the
    /// caller, refused so that no policy expires before it began.
    InvalidDuration,
}

impl MyError {
    /// The text that explains this error.
    pub open spec fn spec_message(self) -> Seq<char> {
        match self {
            MyError::InvalidEvent => "Invalid event data from oracle"@,
            MyError::InsufficientFunds => "Insufficient funds in reserve pool"@,
            MyError::Unauthorized => "Unauthorized operation"@,
            MyError::OperationPaused => "Operation is currently paused"@,
            MyError::PolicyNotRenewable => "Policy not renewable at this time"@,
            MyError::InvalidDuration => "Policy duration must not be negative"@,
        }
    }

    /// The text that explains this error.
    pub fn message(self) -> (text: &'static str)
        ensures
            text@ == self.spec_message(),
    {
        match self {
            MyError::InvalidEvent => "Invalid event data from oracle",
            MyError::InsufficientFunds => "Insufficient funds in reserve pool",
            MyError::Unauthorized => "Unauthorized operation",
            MyError::OperationPaused => "Operation is currently paused",
            MyError::PolicyNotRenewable => "Policy not renewable at this time",
            MyError::InvalidDuration => "Policy duration must not be negative",
        }
    }
}

impl PolicyType {
    /// The position of this kind among the per-kind counters.
    pub open spec fn spec_index(self) -> int {
        match self {
            PolicyType::FlightDelay => 0,
            PolicyType::CropFailure => 1,
            PolicyType::PropertyDamage => 2,
        }
    }

    /// The position of this kind among the per-kind counters.
    pub fn index(self) -> (i: usize)
        ensures
            i == self.spec_index(),
    {
        match self {
            PolicyType::FlightDelay => 0,
            PolicyType::CropFailure => 1,
            PolicyType::PropertyDamage => 2,
        }
    }
}

impl CoverageLevel {
    /// The factor by which the tier scales the base rate: 1, 2 or 3.
    pub open spec fn spec_multiplier(self) -> nat {
        match self {
            CoverageLevel::Basic => 1,
            CoverageLevel::Premium => 2,
            CoverageLevel::Platinum => 3,
        }
    }

    /// The factor by which the tier scales the base rate: 1, 2 or 3.
    pub fn multiplier(self) -> (m: u64)
        ensures
            m == self.spec_multiplier(),
    {
        match self {
            CoverageLevel::Basic => 1,
            CoverageLevel::Premium => 2,
            CoverageLevel::Platinum => 3,
        }
    }
}

} // verus!
