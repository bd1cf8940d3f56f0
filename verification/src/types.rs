//! Plain value types shared by the lifecycle operations.
//!
//! Amounts are unsigned 128-bit integers, the ledger's standard coin range.
//! A price fraction (such as the maximum acceptable slippage) is a fixed-point
//! value in atomic units of [`FRACTION_ONE`], eighteen decimal places.

use vstd::prelude::*;

verus! {

/// Number of atomic units in the fraction `1.0`.
pub const FRACTION_ONE: u128 = 1_000_000_000_000_000_000;

/// The atomic units of the fraction `p / 100`.
///
/// `percent(1)` is one percent; `percent(100)` is [`FRACTION_ONE`].
pub fn percent(p: u64) -> (r: u128)
    ensures
        r == p * 10_000_000_000_000_000,
{
    (p as u128) * 10_000_000_000_000_000
}

/// A fixed amount of a named asset, offered for conversion on each execution
/// of a plan.
#[derive(Debug, PartialEq, Eq)]
pub struct OfferAsset {
    /// Symbolic asset identifier, as the name service knows it.
    pub name: String,
    /// Amount converted per execution.
    pub amount: u128,
}

impl Clone for OfferAsset {
    fn clone(&self) -> (res: Self)
        ensures
            res == *self,
    {
        OfferAsset { name: self.name.clone(), amount: self.amount }
    }
}

/// An amount of a native denomination, used to fund an automation task's
/// execution fees.
#[derive(Debug, PartialEq, Eq)]
pub struct Coin {
    /// The native denomination.
    pub denom: String,
    /// The funded amount.
    pub amount: u128,
}

impl Clone for Coin {
    fn clone(&self) -> (res: Self)
        ensures
            res == *self,
    {
        Coin { denom: self.denom.clone(), amount: self.amount }
    }
}

/// An asset identifier as the name service resolved it: either a native
/// denomination or an asset managed by a contract.
///
/// The name service itself is an outside collaborator; the logic only reads
/// which of the two shapes came back.
#[derive(Debug, PartialEq, Eq)]
pub enum ResolvedAsset {
    /// A native denomination of the ledger.
    Native(String),
    /// An asset held by a contract at the given address.
    Contract(String),
}

} // verus!
