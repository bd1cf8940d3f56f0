//! The plan lifecycle orchestrator: the contract state and the operations
//! that create, update, cancel and convert plans.
//!
//! Each operation's contract states that its result and state change equal
//! the corresponding spec function of [`crate::model`].  Facts owned by
//! outside services — the outcome of a swap simulation, a task's manager
//! address, a task's funding balance — arrive as plain arguments that the
//! host glue obtained before calling in; every effect on those services
//! leaves as an [`Instruction`] in the result.

use vstd::prelude::*;

use crate::config::Config;
use crate::config::ConfigUpdate;
use crate::error::DcaError;
use crate::error::TaskQueryError;
use crate::frequency::Frequency;
use crate::instr::Instruction;
use crate::model::cancel_dca_spec;
use crate::model::cancelled;
use crate::model::convert_spec;
use crate::model::create_dca_spec;
use crate::model::created;
use crate::model::created_agree;
use crate::model::instantiate_spec;
use crate::model::instrs_agree;
use crate::model::load_entry_spec;
use crate::model::manager_view;
use crate::model::model_inv;
use crate::model::update_config_spec;
use crate::model::update_dca_spec;
use crate::model::DcaModel;
use crate::store::DcaEntry;
use crate::store::PlanStore;
use crate::types::OfferAsset;
use crate::types::ResolvedAsset;

verus! {

/// The contract state: administrator, global configuration, and the plan
/// store with its id allocator.
pub struct DcaApp {
    admin: String,
    config: Config,
    store: PlanStore,
}

impl View for DcaApp {
    type V = DcaModel;

    closed spec fn view(&self) -> DcaModel {
        DcaModel {
            admin: self.admin@,
            config: self.config,
            plans: self.store.plans(),
            next_id: self.store.next_id(),
        }
    }
}

impl DcaApp {
    /// Create the contract state once, at instantiation.  The funding asset
    /// comes from the name service already resolved; it must be a native
    /// denomination, whose identifier becomes `Config::native_denom`.
    pub fn instantiate(
        admin: String,
        funding_asset: ResolvedAsset,
        dca_creation_amount: u128,
        refill_threshold: u128,
        max_spread: u128,
    ) -> (r: Result<DcaApp, DcaError>)
        ensures
            ({
                let s = instantiate_spec(
                    admin,
                    funding_asset,
                    dca_creation_amount,
                    refill_threshold,
                    max_spread,
                );
                match r {
                    Ok(app) => s matches Ok(m) && app@ == m && model_inv(app@),
                    Err(e) => s == Err::<DcaModel, DcaError>(e),
                }
            }),
    {
        let denom = match funding_asset {
            ResolvedAsset::Native(denom) => denom,
            ResolvedAsset::Contract(_) => {
                return Err(DcaError::NotNativeAsset);
            },
        };
        let app = DcaApp {
            admin,
            config: Config {
                native_denom: denom,
                dca_creation_amount,
                refill_threshold,
                max_spread,
            },
            store: PlanStore::empty(),
        };
        Ok(app)
    }

    /// The authorization guard for mutating calls: fails with
    /// `Unauthorized` unless the caller is the configured administrator.
    pub fn assert_admin(&self, caller: &String) -> (r: Result<(), DcaError>)
        ensures
            r == if caller@ == self@.admin {
                Ok::<(), DcaError>(())
            } else {
                Err::<(), DcaError>(DcaError::Unauthorized)
            },
    {
        if *caller == self.admin {
            Ok(())
        } else {
            Err(DcaError::Unauthorized)
        }
    }

    /// The authorization guard for the convert trigger: the caller must be
    /// the automation service's authorized manager for the plan's task,
    /// as the host looked it up; a failed lookup surfaces as its own error.
    pub fn assert_task_manager(caller: &String, manager: Result<String, TaskQueryError>) -> (r:
        Result<(), DcaError>)
        ensures
            r == match manager_view(manager) {
                Err(e) => Err::<(), DcaError>(crate::error::query_error(e)),
                Ok(addr) => if addr == caller@ {
                    Ok::<(), DcaError>(())
                } else {
                    Err::<(), DcaError>(DcaError::NotManagerConvert)
                },
            },
    {
        match manager {
            Ok(addr) => {
                if addr == *caller {
                    Ok(())
                } else {
                    Err(DcaError::NotManagerConvert)
                }
            },
            Err(TaskQueryError::Unavailable) => Err(DcaError::ServiceUnavailable),
            Err(TaskQueryError::UnknownTask) => Err(DcaError::NotFound),
        }
    }

    /// Overwrite the supplied configuration fields; unset fields retain
    /// their previous values.  Only the administrator may call this.
    pub fn update_config(&mut self, caller: &String, update: ConfigUpdate) -> (r: Result<
        (),
        DcaError,
    >)
        ensures
            ({
                let (res, m) = update_config_spec(old(self)@, caller@, update);
                r == res && final(self)@ == m
            }),
            model_inv(old(self)@) ==> model_inv(final(self)@),
    {
        self.assert_admin(caller)?;
        let new_config = Config {
            native_denom: match update.native_denom {
                Some(d) => d,
                None => self.config.native_denom.clone(),
            },
            dca_creation_amount: match update.dca_creation_amount {
                Some(a) => a,
                None => self.config.dca_creation_amount,
            },
            refill_threshold: match update.refill_threshold {
                Some(t) => t,
                None => self.config.refill_threshold,
            },
            max_spread: match update.max_spread {
                Some(s) => s,
                None => self.config.max_spread,
            },
        };
        self.config = new_config;
        Ok(())
    }

    /// Whether the id allocator can still hand out a fresh id.  This is a
    /// machine limit, not a policy: it only fails once every id of the id
    /// type has been allocated.
    pub fn can_allocate(&self) -> (b: bool)
        ensures
            b == (self@.next_id <= u64::MAX),
    {
        self.store.can_allocate()
    }

    /// Create a new plan: allocate a fresh id, persist the entry, and
    /// register its recurring automation task, funded from the
    /// configuration.  Only the administrator may create a plan, and only
    /// when the simulated swap for the pair and venue is feasible
    /// (`swap_viable`); on failure nothing is persisted and no id is
    /// consumed.
    pub fn create_dca(
        &mut self,
        caller: &String,
        source_asset: OfferAsset,
        target_asset: String,
        frequency: Frequency,
        dex: String,
        swap_viable: bool,
    ) -> (r: Result<(u64, Vec<Instruction>), DcaError>)
        requires
            old(self)@.next_id <= u64::MAX,
            frequency.valid(),
        ensures
            ({
                let (res, m) = create_dca_spec(
                    old(self)@,
                    caller@,
                    source_asset,
                    target_asset,
                    frequency,
                    dex,
                    swap_viable,
                );
                created_agree(r, res) && final(self)@ == m
            }),
            r matches Ok((id, v)) ==> created(
                old(self)@,
                final(self)@,
                id,
                crate::model::new_entry(source_asset, target_asset, frequency, dex),
            ),
            model_inv(old(self)@) ==> model_inv(final(self)@),
    {
        self.assert_admin(caller)?;
        if !swap_viable {
            return Err(DcaError::SwapUnavailable);
        }
        let entry = DcaEntry { source_asset, target_asset, frequency, dex };
        let id = self.store.allocate(entry);
        let register = Instruction::RegisterTask {
            dca_id: id,
            interval: frequency.to_interval(),
            funding: self.config.task_creation_assets(),
            stop_on_fail: true,
        };
        let mut instructions: Vec<Instruction> = Vec::new();
        instructions.push(register);
        proof {
            old(self).store.lemma_next_id_pos();
            if model_inv(old(self)@) {
                assert forall|k: u64| #[trigger] self@.plans.dom().contains(k) implies 1 <= k
                    < self@.next_id && self@.plans[k].valid() by {
                    if k != id {
                        assert(old(self)@.plans.dom().contains(k));
                    }
                }
            }
        }
        Ok((id, instructions))
    }

    /// Update an existing plan in place: supplied fields replace the stored
    /// ones, the id is stable.  Only the administrator may update, the plan
    /// must exist, and the simulated swap for the resulting pair and venue
    /// must be feasible (`swap_viable`).  A supplied frequency re-creates
    /// the schedule: the old task is removed and a new one registered, both
    /// instructions in one result so that neither happens without the other.
    pub fn update_dca(
        &mut self,
        caller: &String,
        dca_id: u64,
        new_source_asset: Option<OfferAsset>,
        new_target_asset: Option<String>,
        new_frequency: Option<Frequency>,
        new_dex: Option<String>,
        swap_viable: bool,
    ) -> (r: Result<Vec<Instruction>, DcaError>)
        requires
            new_frequency matches Some(f) ==> f.valid(),
        ensures
            ({
                let (res, m) = update_dca_spec(
                    old(self)@,
                    caller@,
                    dca_id,
                    new_source_asset,
                    new_target_asset,
                    new_frequency,
                    new_dex,
                    swap_viable,
                );
                instrs_agree(r, res) && final(self)@ == m
            }),
            model_inv(old(self)@) ==> model_inv(final(self)@),
    {
        self.assert_admin(caller)?;
        let old_entry = match self.store.get(dca_id) {
            Some(e) => e.clone(),
            None => {
                return Err(DcaError::NotFound);
            },
        };
        if !swap_viable {
            return Err(DcaError::SwapUnavailable);
        }
        let recreate_task = new_frequency.is_some();
        let new_entry = DcaEntry {
            source_asset: match new_source_asset {
                Some(s) => s,
                None => old_entry.source_asset,
            },
            target_asset: match new_target_asset {
                Some(t) => t,
                None => old_entry.target_asset,
            },
            frequency: match new_frequency {
                Some(f) => f,
                None => old_entry.frequency,
            },
            dex: match new_dex {
                Some(d) => d,
                None => old_entry.dex,
            },
        };
        let new_frequency_value = new_entry.frequency;
        self.store.replace(dca_id, new_entry);
        let mut instructions: Vec<Instruction> = Vec::new();
        if recreate_task {
            instructions.push(Instruction::DeregisterTask { dca_id });
            instructions.push(Instruction::RegisterTask {
                dca_id,
                interval: new_frequency_value.to_interval(),
                funding: self.config.task_creation_assets(),
                stop_on_fail: true,
            });
        }
        proof {
            let (res, m) = update_dca_spec(
                old(self)@,
                caller@,
                dca_id,
                new_source_asset,
                new_target_asset,
                new_frequency,
                new_dex,
                swap_viable,
            );
            assert(self@ =~= m);
            assert(res matches Ok(q) && instructions@ =~= q);
            if model_inv(old(self)@) {
                assert forall|k: u64| #[trigger] self@.plans.dom().contains(k) implies 1 <= k
                    < self@.next_id && self@.plans[k].valid() by {
                    if k != dca_id {
                        assert(old(self)@.plans.dom().contains(k));
                    } else {
                        assert(old(self)@.plans.dom().contains(dca_id));
                    }
                }
            }
        }
        Ok(instructions)
    }

    /// Remove an existing plan and its recurring automation task.  Only the
    /// administrator may cancel, and the plan must exist.  The freed id is
    /// never reused.
    pub fn cancel_dca(&mut self, caller: &String, dca_id: u64) -> (r: Result<
        Vec<Instruction>,
        DcaError,
    >)
        ensures
            ({
                let (res, m) = cancel_dca_spec(old(self)@, caller@, dca_id);
                instrs_agree(r, res) && final(self)@ == m
            }),
            r is Ok ==> cancelled(old(self)@, final(self)@, dca_id),
            model_inv(old(self)@) ==> model_inv(final(self)@),
    {
        self.assert_admin(caller)?;
        match self.store.get(dca_id) {
            Some(_) => (),
            None => {
                return Err(DcaError::NotFound);
            },
        };
        self.store.remove(dca_id);
        let mut instructions: Vec<Instruction> = Vec::new();
        instructions.push(Instruction::DeregisterTask { dca_id });
        proof {
            if model_inv(old(self)@) {
                assert forall|k: u64| #[trigger] self@.plans.dom().contains(k) implies 1 <= k
                    < self@.next_id && self@.plans[k].valid() by {
                    assert(old(self)@.plans.dom().contains(k));
                }
            }
        }
        Ok(instructions)
    }

    /// Perform one scheduled conversion of a plan.  The host hands in the
    /// task manager address and task funding balance it looked up from the
    /// automation service; the caller must be that manager.  When the
    /// balance sits below the refill threshold, a refill instruction is
    /// issued before the swap instruction, so both can be delivered in one
    /// response.  The state never changes.
    pub fn convert(
        &self,
        caller: &String,
        dca_id: u64,
        manager: Result<String, TaskQueryError>,
        balance: Result<u128, TaskQueryError>,
    ) -> (r: Result<Vec<Instruction>, DcaError>)
        ensures
            instrs_agree(r, convert_spec(self@, dca_id, caller@, manager_view(manager), balance)),
    {
        let entry = match self.store.get(dca_id) {
            Some(e) => e,
            None => {
                return Err(DcaError::NotFound);
            },
        };
        Self::assert_task_manager(caller, manager)?;
        let task_balance = match balance {
            Ok(b) => b,
            Err(TaskQueryError::Unavailable) => {
                return Err(DcaError::ServiceUnavailable);
            },
            Err(TaskQueryError::UnknownTask) => {
                return Err(DcaError::NotFound);
            },
        };
        let mut instructions: Vec<Instruction> = Vec::new();
        if task_balance < self.config.refill_threshold {
            instructions.push(Instruction::RefillTask {
                dca_id,
                funding: self.config.task_creation_assets(),
            });
        }
        instructions.push(Instruction::Swap {
            offer: entry.source_asset.clone(),
            ask: entry.target_asset.clone(),
            dex: entry.dex.clone(),
            max_spread: self.config.max_spread,
        });
        proof {
            let s = convert_spec(self@, dca_id, caller@, manager_view(manager), balance);
            assert(s matches Ok(q) && instructions@ =~= q);
        }
        Ok(instructions)
    }

    /// Look up the plan stored under `dca_id`.
    pub fn load_entry(&self, dca_id: u64) -> (r: Result<DcaEntry, DcaError>)
        ensures
            r == load_entry_spec(self@, dca_id),
    {
        match self.store.get(dca_id) {
            Some(e) => Ok(e.clone()),
            None => Err(DcaError::NotFound),
        }
    }

    /// The current global configuration.
    pub fn get_config(&self) -> (r: &Config)
        ensures
            *r == self@.config,
    {
        &self.config
    }
}

} // verus!
