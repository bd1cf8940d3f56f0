//! The mathematical model of the contract state, and the functional
//! specification of each lifecycle operation.
//!
//! Every executable operation's contract says that its result and its state
//! change equal what the corresponding spec function here computes, so the
//! whole behaviour of the library is pinned down by this module.

use vstd::prelude::*;

use crate::config::apply_update;
use crate::config::Config;
use crate::config::ConfigUpdate;
use crate::error::query_error;
use crate::error::DcaError;
use crate::error::TaskQueryError;
use crate::frequency::Frequency;
use crate::instr::Instruction;
use crate::store::DcaEntry;
use crate::types::OfferAsset;

verus! {

/// The contract state, as contracts and laws see it: the administrator's
/// address, the global configuration, the stored plans, and the id the
/// allocator hands out next.
#[verifier::ext_equal]
pub struct DcaModel {
    /// Address of the configured administrator.
    pub admin: Seq<char>,
    /// The global configuration.
    pub config: Config,
    /// The stored plans, keyed by id.
    pub plans: Map<u64, DcaEntry>,
    /// The id allocated by the next successful creation.
    pub next_id: int,
}

/// State well-formedness: the allocator starts at 1 and every stored plan
/// sits below it (so a fresh id can never collide) and carries a supported
/// cadence.
pub open spec fn model_inv(m: DcaModel) -> bool {
    &&& m.next_id >= 1
    &&& forall|id: u64|
        #[trigger] m.plans.dom().contains(id) ==> 1 <= id < m.next_id && m.plans[id].valid()
}

/// The state built at instantiation: the supplied funding asset must be a
/// native denomination; the store starts empty and the allocator at 1.
pub open spec fn instantiate_spec(
    admin: String,
    funding_asset: crate::types::ResolvedAsset,
    dca_creation_amount: u128,
    refill_threshold: u128,
    max_spread: u128,
) -> Result<DcaModel, DcaError> {
    match funding_asset {
        crate::types::ResolvedAsset::Native(denom) => Ok(
            DcaModel {
                admin: admin@,
                config: Config { native_denom: denom, dca_creation_amount, refill_threshold, max_spread },
                plans: Map::empty(),
                next_id: 1,
            },
        ),
        crate::types::ResolvedAsset::Contract(_) => Err(DcaError::NotNativeAsset),
    }
}

/// What `update_config` returns and leaves behind: only the administrator
/// may call it; supplied fields replace the stored configuration, unset
/// fields retain it; plans and allocator are untouched.
pub open spec fn update_config_spec(m: DcaModel, caller: Seq<char>, update: ConfigUpdate) -> (Result<
    (),
    DcaError,
>, DcaModel) {
    if caller != m.admin {
        (Err(DcaError::Unauthorized), m)
    } else {
        (Ok(()), DcaModel { config: apply_update(m.config, update), ..m })
    }
}

/// The instruction that registers the recurring task for plan `id`: its
/// payload is the `convert` trigger for `id`, its funding comes from the
/// configuration, and it stops on failure.
pub open spec fn register_task_instr(id: u64, frequency: Frequency, c: Config) -> Instruction {
    Instruction::RegisterTask {
        dca_id: id,
        interval: frequency.interval(),
        funding: c.task_funding(),
        stop_on_fail: true,
    }
}

/// The entry persisted by a successful creation.
pub open spec fn new_entry(
    source_asset: OfferAsset,
    target_asset: String,
    frequency: Frequency,
    dex: String,
) -> DcaEntry {
    DcaEntry { source_asset, target_asset, frequency, dex }
}

/// The state change and fresh id of one successful creation: the id is the
/// allocator's value, the entry is stored under it, the allocator moves by
/// one, and nothing else changes.
pub open spec fn created(pre: DcaModel, post: DcaModel, id: u64, entry: DcaEntry) -> bool {
    &&& id == pre.next_id
    &&& post == DcaModel { plans: pre.plans.insert(id, entry), next_id: pre.next_id + 1, ..pre }
}

/// What `create_dca` returns and leaves behind.  Only the administrator may
/// create a plan, and only when the simulated swap for the pair and venue is
/// feasible within the configured slippage bound (`swap_viable`); a failure
/// persists nothing and consumes no id.  Success hands back the fresh id and
/// exactly one instruction: the task registration.
pub open spec fn create_dca_spec(
    m: DcaModel,
    caller: Seq<char>,
    source_asset: OfferAsset,
    target_asset: String,
    frequency: Frequency,
    dex: String,
    swap_viable: bool,
) -> (Result<(u64, Seq<Instruction>), DcaError>, DcaModel) {
    if caller != m.admin {
        (Err(DcaError::Unauthorized), m)
    } else if !swap_viable {
        (Err(DcaError::SwapUnavailable), m)
    } else {
        let id = m.next_id as u64;
        let entry = new_entry(source_asset, target_asset, frequency, dex);
        (
            Ok((id, seq![register_task_instr(id, frequency, m.config)])),
            DcaModel { plans: m.plans.insert(id, entry), next_id: m.next_id + 1, ..m },
        )
    }
}

/// The entry left by an update: supplied fields replace the stored ones,
/// unset fields retain them.
pub open spec fn merged_entry(
    e: DcaEntry,
    new_source_asset: Option<OfferAsset>,
    new_target_asset: Option<String>,
    new_frequency: Option<Frequency>,
    new_dex: Option<String>,
) -> DcaEntry {
    DcaEntry {
        source_asset: match new_source_asset {
            Some(s) => s,
            None => e.source_asset,
        },
        target_asset: match new_target_asset {
            Some(t) => t,
            None => e.target_asset,
        },
        frequency: match new_frequency {
            Some(f) => f,
            None => e.frequency,
        },
        dex: match new_dex {
            Some(d) => d,
            None => e.dex,
        },
    }
}

/// What `update_dca` returns and leaves behind.  Only the administrator may
/// update, the plan must exist, and the simulated swap for the resulting
/// pair and venue must be feasible (`swap_viable`).  The merged entry is
/// stored under the same id.  A supplied frequency re-creates the schedule:
/// exactly two instructions, the removal of the old task and then the
/// registration of the new one; without a supplied frequency no scheduling
/// instruction is emitted.
pub open spec fn update_dca_spec(
    m: DcaModel,
    caller: Seq<char>,
    dca_id: u64,
    new_source_asset: Option<OfferAsset>,
    new_target_asset: Option<String>,
    new_frequency: Option<Frequency>,
    new_dex: Option<String>,
    swap_viable: bool,
) -> (Result<Seq<Instruction>, DcaError>, DcaModel) {
    if caller != m.admin {
        (Err(DcaError::Unauthorized), m)
    } else if !m.plans.dom().contains(dca_id) {
        (Err(DcaError::NotFound), m)
    } else if !swap_viable {
        (Err(DcaError::SwapUnavailable), m)
    } else {
        let merged = merged_entry(
            m.plans[dca_id],
            new_source_asset,
            new_target_asset,
            new_frequency,
            new_dex,
        );
        let post = DcaModel { plans: m.plans.insert(dca_id, merged), ..m };
        match new_frequency {
            Some(f) => (
                Ok(
                    seq![
                        Instruction::DeregisterTask { dca_id },
                        register_task_instr(dca_id, f, m.config),
                    ],
                ),
                post,
            ),
            None => (Ok(Seq::empty()), post),
        }
    }
}

/// The state change of one successful cancellation: the entry is gone, the
/// allocator does not move, so the id is never reused.
pub open spec fn cancelled(pre: DcaModel, post: DcaModel, id: u64) -> bool {
    post == DcaModel { plans: pre.plans.remove(id), ..pre }
}

/// What `cancel_dca` returns and leaves behind.  Only the administrator may
/// cancel, the plan must exist; the entry is removed and the single emitted
/// instruction removes the plan's recurring task.
pub open spec fn cancel_dca_spec(m: DcaModel, caller: Seq<char>, dca_id: u64) -> (Result<
    Seq<Instruction>,
    DcaError,
>, DcaModel) {
    if caller != m.admin {
        (Err(DcaError::Unauthorized), m)
    } else if !m.plans.dom().contains(dca_id) {
        (Err(DcaError::NotFound), m)
    } else {
        (
            Ok(seq![Instruction::DeregisterTask { dca_id }]),
            DcaModel { plans: m.plans.remove(dca_id), ..m },
        )
    }
}

/// What a plan lookup returns: the stored entry, or `NotFound`.
pub open spec fn load_entry_spec(m: DcaModel, dca_id: u64) -> Result<DcaEntry, DcaError> {
    if m.plans.dom().contains(dca_id) {
        Ok(m.plans[dca_id])
    } else {
        Err(DcaError::NotFound)
    }
}

/// The instruction that performs one conversion of a plan, bounded by the
/// configured maximum slippage.
pub open spec fn swap_instr(e: DcaEntry, c: Config) -> Instruction {
    Instruction::Swap {
        offer: e.source_asset,
        ask: e.target_asset,
        dex: e.dex,
        max_spread: c.max_spread,
    }
}

/// What `convert` returns.  The plan must exist; the caller must be the
/// automation service's registered manager for the plan's task, which the
/// host looked up beforehand (`manager`), as it did the task's funding
/// balance (`balance`); a failed lookup surfaces as its own error.  When the
/// balance sits below the refill threshold, a refill instruction precedes
/// the swap instruction; otherwise the swap is the only instruction.  The
/// state never changes.
pub open spec fn convert_spec(
    m: DcaModel,
    dca_id: u64,
    caller: Seq<char>,
    manager: Result<Seq<char>, TaskQueryError>,
    balance: Result<u128, TaskQueryError>,
) -> Result<Seq<Instruction>, DcaError> {
    if !m.plans.dom().contains(dca_id) {
        Err(DcaError::NotFound)
    } else {
        match manager {
            Err(e) => Err(query_error(e)),
            Ok(manager_addr) => if manager_addr != caller {
                Err(DcaError::NotManagerConvert)
            } else {
                match balance {
                    Err(e) => Err(query_error(e)),
                    Ok(b) => {
                        let swap = swap_instr(m.plans[dca_id], m.config);
                        if b < m.config.refill_threshold {
                            Ok(
                                seq![
                                    Instruction::RefillTask {
                                        dca_id,
                                        funding: m.config.task_funding(),
                                    },
                                    swap,
                                ],
                            )
                        } else {
                            Ok(seq![swap])
                        }
                    },
                }
            },
        }
    }
}

/// One committed invocation of any lifecycle operation, as a relation
/// between states.  A convert never changes the state, and a failed
/// invocation's effects are discarded by the host, so both fall under the
/// identity.  The frequency constraints mirror the operations' contracts:
/// a cadence is validated when it is constructed.
pub open spec fn lifecycle_step(pre: DcaModel, post: DcaModel) -> bool {
    ||| post == pre
    ||| (exists|caller: Seq<char>, update: ConfigUpdate|
        post == #[trigger] update_config_spec(pre, caller, update).1)
    ||| (exists|
        caller: Seq<char>,
        source_asset: OfferAsset,
        target_asset: String,
        frequency: Frequency,
        dex: String,
    |
        frequency.valid() && pre.next_id <= u64::MAX && post == #[trigger] create_dca_spec(
            pre,
            caller,
            source_asset,
            target_asset,
            frequency,
            dex,
            true,
        ).1)
    ||| (exists|
        caller: Seq<char>,
        dca_id: u64,
        new_source_asset: Option<OfferAsset>,
        new_target_asset: Option<String>,
        new_frequency: Option<Frequency>,
        new_dex: Option<String>,
    |
        (new_frequency matches Some(f) ==> f.valid()) && post == #[trigger] update_dca_spec(
            pre,
            caller,
            dca_id,
            new_source_asset,
            new_target_asset,
            new_frequency,
            new_dex,
            true,
        ).1)
    ||| (exists|caller: Seq<char>, dca_id: u64|
        post == #[trigger] cancel_dca_spec(pre, caller, dca_id).1)
}

/// How an executable result with a vector of instructions agrees with a
/// specified result with a sequence of instructions.
pub open spec fn instrs_agree(
    r: Result<Vec<Instruction>, DcaError>,
    s: Result<Seq<Instruction>, DcaError>,
) -> bool {
    match (r, s) {
        (Ok(v), Ok(q)) => v@ == q,
        (Err(a), Err(b)) => a == b,
        _ => false,
    }
}

/// How an executable creation result agrees with the specified one.
pub open spec fn created_agree(
    r: Result<(u64, Vec<Instruction>), DcaError>,
    s: Result<(u64, Seq<Instruction>), DcaError>,
) -> bool {
    match (r, s) {
        (Ok((id, v)), Ok((sid, q))) => id == sid && v@ == q,
        (Err(a), Err(b)) => a == b,
        _ => false,
    }
}

/// The view of a manager lookup: the address as a sequence of characters.
pub open spec fn manager_view(r: Result<String, TaskQueryError>) -> Result<
    Seq<char>,
    TaskQueryError,
> {
    match r {
        Ok(s) => Ok(s@),
        Err(e) => Err(e),
    }
}

} // verus!
