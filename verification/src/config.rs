//! Global configuration: created once at instantiation, mutated only by the
//! administrator, never deleted while the contract exists.

use vstd::prelude::*;

use crate::types::Coin;

verus! {

/// The contract instance's global configuration.
#[derive(Debug, PartialEq, Eq)]
pub struct Config {
    /// Identifier of the native asset used to fund automation task
    /// execution fees.
    pub native_denom: String,
    /// Amount of `native_denom` deposited when a task is registered or
    /// refilled.
    pub dca_creation_amount: u128,
    /// Minimum funding balance below which a task must be refilled before
    /// the next trigger.
    pub refill_threshold: u128,
    /// Maximum acceptable price slippage for a conversion, in atomic units
    /// of [`crate::types::FRACTION_ONE`].
    pub max_spread: u128,
}

impl Clone for Config {
    fn clone(&self) -> (res: Self)
        ensures
            res == *self,
    {
        Config {
            native_denom: self.native_denom.clone(),
            dca_creation_amount: self.dca_creation_amount,
            refill_threshold: self.refill_threshold,
            max_spread: self.max_spread,
        }
    }
}

/// A partial overwrite of [`Config`]: a set field replaces the stored value,
/// an unset field retains it.
#[derive(Debug, PartialEq, Eq)]
pub struct ConfigUpdate {
    /// Replacement for [`Config::native_denom`], if set.
    pub native_denom: Option<String>,
    /// Replacement for [`Config::dca_creation_amount`], if set.
    pub dca_creation_amount: Option<u128>,
    /// Replacement for [`Config::refill_threshold`], if set.
    pub refill_threshold: Option<u128>,
    /// Replacement for [`Config::max_spread`], if set.
    pub max_spread: Option<u128>,
}

impl Default for ConfigUpdate {
    /// The update that leaves every field as it is.
    fn default() -> (r: Self)
        ensures
            r == (ConfigUpdate {
                native_denom: None,
                dca_creation_amount: None,
                refill_threshold: None,
                max_spread: None,
            }),
    {
        ConfigUpdate {
            native_denom: None,
            dca_creation_amount: None,
            refill_threshold: None,
            max_spread: None,
        }
    }
}

/// The configuration left in the store by an update: supplied fields
/// replace the previous values, unset fields retain them.
pub open spec fn apply_update(c: Config, u: ConfigUpdate) -> Config {
    Config {
        native_denom: match u.native_denom {
            Some(d) => d,
            None => c.native_denom,
        },
        dca_creation_amount: match u.dca_creation_amount {
            Some(a) => a,
            None => c.dca_creation_amount,
        },
        refill_threshold: match u.refill_threshold {
            Some(t) => t,
            None => c.refill_threshold,
        },
        max_spread: match u.max_spread {
            Some(s) => s,
            None => c.max_spread,
        },
    }
}

impl Config {
    /// The funding attached when a task is created or refilled: the
    /// creation amount in the native denomination.
    pub open spec fn task_funding(self) -> Coin {
        Coin { denom: self.native_denom, amount: self.dca_creation_amount }
    }

    /// Build the funding value attached to a task creation or refill.
    pub fn task_creation_assets(&self) -> (r: Coin)
        ensures
            r == self.task_funding(),
    {
        Coin { denom: self.native_denom.clone(), amount: self.dca_creation_amount }
    }
}

} // verus!
