//! A risk-tiered insurance underwriting ledger.
//!
//! Policies are priced on a demand curve, premiums are collected into three
//! reserve buckets by risk class, and the buckets are rebalanced towards a cap
//! on low-risk capital. Every operation takes the ledger as an explicit
//! argument and is verified against a mathematical model of it.

pub mod types;
pub mod pricing;
pub mod ledger;
pub mod lifecycle;
pub mod history;
