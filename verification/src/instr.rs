//! Pending instructions: the effects a lifecycle operation asks the host to
//! carry out after the invocation commits.
//!
//! The host ledger never allows a synchronous cross-contract call inside one
//! state transition, so every automation or exchange interaction is a value
//! in the operation's result, not a direct call.  Either every instruction of
//! an invocation is delivered or none is.

use vstd::prelude::*;

use crate::frequency::Interval;
use crate::types::Coin;
use crate::types::OfferAsset;

verus! {

/// One effect to be carried out by an outside service.
#[derive(Debug, PartialEq, Eq)]
pub enum Instruction {
    /// Register a recurring automation task for the plan `dca_id`.  The
    /// task's payload, when delivered back, is the `convert` trigger for
    /// that id; `funding` pays the task's execution fees; a task with
    /// `stop_on_fail` halts future triggers after a failed conversion
    /// instead of silently retrying forever.
    RegisterTask {
        /// The plan the task wakes up.
        dca_id: u64,
        /// The recurrence of the task.
        interval: Interval,
        /// Execution-fee funding attached to the task.
        funding: Coin,
        /// Halt future triggers after a failed conversion.
        stop_on_fail: bool,
    },
    /// Remove the recurring automation task bound to the plan `dca_id`.
    DeregisterTask {
        /// The plan whose task is removed.
        dca_id: u64,
    },
    /// Top up the execution-fee balance of the task bound to the plan
    /// `dca_id`.
    RefillTask {
        /// The plan whose task is refilled.
        dca_id: u64,
        /// The amount added to the task's balance.
        funding: Coin,
    },
    /// Convert `offer` into the asset `ask` through the exchange venue
    /// `dex`.  The exchange must reject the swap if the realized price
    /// would deviate from the simulated price by more than `max_spread`;
    /// it never silently accepts worse pricing.
    Swap {
        /// The asset and amount converted from.
        offer: OfferAsset,
        /// The asset converted into.
        ask: String,
        /// The exchange venue used.
        dex: String,
        /// Maximum acceptable slippage, in atomic units of
        /// [`crate::types::FRACTION_ONE`].
        max_spread: u128,
    },
}

} // verus!
