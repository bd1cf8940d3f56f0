//! The library's laws: properties of the plan lifecycle, proved once for
//! every state, input and outcome the contracts allow.

use vstd::prelude::*;

use crate::config::apply_update;
use crate::config::ConfigUpdate;
use crate::error::DcaError;
use crate::error::TaskQueryError;
use crate::frequency::Frequency;
use crate::instr::Instruction;
use crate::model::cancel_dca_spec;
use crate::model::cancelled;
use crate::model::convert_spec;
use crate::model::create_dca_spec;
use crate::model::created;
use crate::model::lifecycle_step;
use crate::model::load_entry_spec;
use crate::model::model_inv;
use crate::model::register_task_instr;
use crate::model::swap_instr;
use crate::model::update_config_spec;
use crate::model::update_dca_spec;
use crate::model::DcaModel;
use crate::store::DcaEntry;
use crate::types::OfferAsset;

verus! {

/// Along a chain of successful creations — however many, whatever the
/// entries — the allocated ids strictly increase in call order, so no two
/// creations ever hand out the same id.
pub proof fn lemma_create_ids_strictly_increase(
    models: Seq<DcaModel>,
    ids: Seq<u64>,
    entries: Seq<DcaEntry>,
)
    requires
        models.len() == ids.len() + 1,
        entries.len() == ids.len(),
        forall|k: int|
            0 <= k < ids.len() ==> #[trigger] created(models[k], models[k + 1], ids[k], entries[k]),
    ensures
        forall|i: int, j: int| 0 <= i < j < ids.len() ==> ids[i] < ids[j],
{
    assert forall|i: int, j: int| 0 <= i < j < ids.len() implies ids[i] < ids[j] by {
        lemma_allocator_advances(models, ids, entries, i, j);
        assert(created(models[i], models[i + 1], ids[i], entries[i]));
        assert(created(models[j], models[j + 1], ids[j], entries[j]));
    }
}

/// The allocator moves by exactly one per creation, so between two points of
/// a creation chain it has advanced by their distance.
proof fn lemma_allocator_advances(
    models: Seq<DcaModel>,
    ids: Seq<u64>,
    entries: Seq<DcaEntry>,
    i: int,
    j: int,
)
    requires
        models.len() == ids.len() + 1,
        entries.len() == ids.len(),
        forall|k: int|
            0 <= k < ids.len() ==> #[trigger] created(models[k], models[k + 1], ids[k], entries[k]),
        0 <= i <= j <= ids.len(),
    ensures
        models[j].next_id == models[i].next_id + (j - i),
    decreases j - i,
{
    if i < j {
        lemma_allocator_advances(models, ids, entries, i, j - 1);
        assert(created(models[j - 1], models[j - 1 + 1], ids[j - 1], entries[j - 1]));
    }
}

/// A successful creation hands out an id that no stored plan holds, and a
/// well-formed state stays well-formed.
pub proof fn lemma_created_id_fresh(pre: DcaModel, post: DcaModel, id: u64, entry: DcaEntry)
    requires
        model_inv(pre),
        entry.valid(),
        created(pre, post, id, entry),
    ensures
        !pre.plans.dom().contains(id),
        model_inv(post),
{
    assert forall|k: u64| #[trigger] post.plans.dom().contains(k) implies 1 <= k < post.next_id
        && post.plans[k].valid() by {
        if k != id {
            assert(pre.plans.dom().contains(k));
        }
    }
}

/// Every failing operation aborts with no partial state change: whatever the
/// arguments, an error leaves the state exactly as it was.
pub proof fn lemma_errors_persist_nothing(m: DcaModel)
    ensures
        forall|caller: Seq<char>, update: ConfigUpdate|
            (#[trigger] update_config_spec(m, caller, update)).0 is Err ==> update_config_spec(
                m,
                caller,
                update,
            ).1 == m,
        forall|
            caller: Seq<char>,
            source_asset: OfferAsset,
            target_asset: String,
            frequency: Frequency,
            dex: String,
            swap_viable: bool,
        |
            (#[trigger] create_dca_spec(
                m,
                caller,
                source_asset,
                target_asset,
                frequency,
                dex,
                swap_viable,
            )).0 is Err ==> create_dca_spec(
                m,
                caller,
                source_asset,
                target_asset,
                frequency,
                dex,
                swap_viable,
            ).1 == m,
        forall|
            caller: Seq<char>,
            dca_id: u64,
            new_source_asset: Option<OfferAsset>,
            new_target_asset: Option<String>,
            new_frequency: Option<Frequency>,
            new_dex: Option<String>,
            swap_viable: bool,
        |
            (#[trigger] update_dca_spec(
                m,
                caller,
                dca_id,
                new_source_asset,
                new_target_asset,
                new_frequency,
                new_dex,
                swap_viable,
            )).0 is Err ==> update_dca_spec(
                m,
                caller,
                dca_id,
                new_source_asset,
                new_target_asset,
                new_frequency,
                new_dex,
                swap_viable,
            ).1 == m,
        forall|caller: Seq<char>, dca_id: u64|
            (#[trigger] cancel_dca_spec(m, caller, dca_id)).0 is Err ==> cancel_dca_spec(
                m,
                caller,
                dca_id,
            ).1 == m,
{
}

/// A successful creation is one step of the lifecycle, so the run laws
/// below apply to it.
pub proof fn lemma_created_is_step(pre: DcaModel, post: DcaModel, id: u64, entry: DcaEntry)
    requires
        created(pre, post, id, entry),
        entry.valid(),
        pre.next_id <= u64::MAX,
    ensures
        lifecycle_step(pre, post),
{
    assert(entry.frequency.valid() && pre.next_id <= u64::MAX && post == create_dca_spec(
        pre,
        pre.admin,
        entry.source_asset,
        entry.target_asset,
        entry.frequency,
        entry.dex,
        true,
    ).1);
}

/// No lifecycle operation ever moves the id allocator backwards.
pub proof fn lemma_step_allocator_monotone(pre: DcaModel, post: DcaModel)
    requires
        lifecycle_step(pre, post),
    ensures
        pre.next_id <= post.next_id,
{
    if post == pre {
    } else if exists|caller: Seq<char>, update: ConfigUpdate|
        post == #[trigger] update_config_spec(pre, caller, update).1 {
        let (caller, update) = choose|caller: Seq<char>, update: ConfigUpdate|
            post == update_config_spec(pre, caller, update).1;
    } else if exists|
        caller: Seq<char>,
        source_asset: OfferAsset,
        target_asset: String,
        frequency: Frequency,
        dex: String,
    |
        frequency.valid() && pre.next_id <= u64::MAX && post == #[trigger] create_dca_spec(
            pre,
            caller,
            source_asset,
            target_asset,
            frequency,
            dex,
            true,
        ).1 {
        let (caller, source_asset, target_asset, frequency, dex) = choose|
            caller: Seq<char>,
            source_asset: OfferAsset,
            target_asset: String,
            frequency: Frequency,
            dex: String,
        |
            frequency.valid() && pre.next_id <= u64::MAX && post == create_dca_spec(
                pre,
                caller,
                source_asset,
                target_asset,
                frequency,
                dex,
                true,
            ).1;
    } else if exists|
        caller: Seq<char>,
        dca_id: u64,
        new_source_asset: Option<OfferAsset>,
        new_target_asset: Option<String>,
        new_frequency: Option<Frequency>,
        new_dex: Option<String>,
    |
        (new_frequency matches Some(f) ==> f.valid()) && post == #[trigger] update_dca_spec(
            pre,
            caller,
            dca_id,
            new_source_asset,
            new_target_asset,
            new_frequency,
            new_dex,
            true,
        ).1 {
        let (caller, dca_id, new_source_asset, new_target_asset, new_frequency, new_dex) = choose|
            caller: Seq<char>,
            dca_id: u64,
            new_source_asset: Option<OfferAsset>,
            new_target_asset: Option<String>,
            new_frequency: Option<Frequency>,
            new_dex: Option<String>,
        |
            (new_frequency matches Some(f) ==> f.valid()) && post == update_dca_spec(
                pre,
                caller,
                dca_id,
                new_source_asset,
                new_target_asset,
                new_frequency,
                new_dex,
                true,
            ).1;
    } else {
        let (caller, dca_id) = choose|caller: Seq<char>, dca_id: u64|
            post == cancel_dca_spec(pre, caller, dca_id).1;
        assert(post == cancel_dca_spec(pre, caller, dca_id).1);
    }
}

/// Every lifecycle operation keeps a well-formed state well-formed.
pub proof fn lemma_step_preserves_inv(pre: DcaModel, post: DcaModel)
    requires
        model_inv(pre),
        lifecycle_step(pre, post),
    ensures
        model_inv(post),
{
    lemma_step_allocator_monotone(pre, post);
    if post == pre {
    } else if exists|caller: Seq<char>, update: ConfigUpdate|
        post == #[trigger] update_config_spec(pre, caller, update).1 {
        let (caller, update) = choose|caller: Seq<char>, update: ConfigUpdate|
            post == update_config_spec(pre, caller, update).1;
        assert(post.plans == pre.plans && post.next_id == pre.next_id);
    } else if exists|
        caller: Seq<char>,
        source_asset: OfferAsset,
        target_asset: String,
        frequency: Frequency,
        dex: String,
    |
        frequency.valid() && pre.next_id <= u64::MAX && post == #[trigger] create_dca_spec(
            pre,
            caller,
            source_asset,
            target_asset,
            frequency,
            dex,
            true,
        ).1 {
        let (caller, source_asset, target_asset, frequency, dex) = choose|
            caller: Seq<char>,
            source_asset: OfferAsset,
            target_asset: String,
            frequency: Frequency,
            dex: String,
        |
            frequency.valid() && pre.next_id <= u64::MAX && post == create_dca_spec(
                pre,
                caller,
                source_asset,
                target_asset,
                frequency,
                dex,
                true,
            ).1;
        if caller == pre.admin {
            let id = pre.next_id as u64;
            assert forall|k: u64| #[trigger] post.plans.dom().contains(k) implies 1 <= k
                < post.next_id && post.plans[k].valid() by {
                if k != id {
                    assert(pre.plans.dom().contains(k));
                }
            }
        }
    } else if exists|
        caller: Seq<char>,
        dca_id: u64,
        new_source_asset: Option<OfferAsset>,
        new_target_asset: Option<String>,
        new_frequency: Option<Frequency>,
        new_dex: Option<String>,
    |
        (new_frequency matches Some(f) ==> f.valid()) && post == #[trigger] update_dca_spec(
            pre,
            caller,
            dca_id,
            new_source_asset,
            new_target_asset,
            new_frequency,
            new_dex,
            true,
        ).1 {
        let (caller, dca_id, new_source_asset, new_target_asset, new_frequency, new_dex) = choose|
            caller: Seq<char>,
            dca_id: u64,
            new_source_asset: Option<OfferAsset>,
            new_target_asset: Option<String>,
            new_frequency: Option<Frequency>,
            new_dex: Option<String>,
        |
            (new_frequency matches Some(f) ==> f.valid()) && post == update_dca_spec(
                pre,
                caller,
                dca_id,
                new_source_asset,
                new_target_asset,
                new_frequency,
                new_dex,
                true,
            ).1;
        if caller == pre.admin && pre.plans.dom().contains(dca_id) {
            assert forall|k: u64| #[trigger] post.plans.dom().contains(k) implies 1 <= k
                < post.next_id && post.plans[k].valid() by {
                if k != dca_id {
                    assert(pre.plans.dom().contains(k));
                } else {
                    assert(pre.plans.dom().contains(dca_id));
                }
            }
        }
    } else {
        let (caller, dca_id) = choose|caller: Seq<char>, dca_id: u64|
            post == cancel_dca_spec(pre, caller, dca_id).1;
        assert(post == cancel_dca_spec(pre, caller, dca_id).1);
        assert forall|k: u64| #[trigger] post.plans.dom().contains(k) implies 1 <= k < post.next_id
            && post.plans[k].valid() by {
            assert(pre.plans.dom().contains(k));
        }
    }
}

/// Along any run of the lifecycle, the id allocator never moves backwards.
pub proof fn lemma_run_allocator_monotone(models: Seq<DcaModel>, i: int, j: int)
    requires
        forall|k: int|
            0 <= k < models.len() - 1 ==> #[trigger] lifecycle_step(models[k], models[k + 1]),
        0 <= i <= j < models.len(),
    ensures
        models[i].next_id <= models[j].next_id,
    decreases j - i,
{
    if i < j {
        lemma_run_allocator_monotone(models, i, j - 1);
        assert(lifecycle_step(models[j - 1], models[j - 1 + 1]));
        lemma_step_allocator_monotone(models[j - 1], models[j]);
    }
}

/// Along any run of the lifecycle — creations interleaved with any other
/// operations — the ids allocated by the creations strictly increase in
/// call order, so no id is ever allocated twice.
pub proof fn lemma_run_create_ids_strictly_increase(
    models: Seq<DcaModel>,
    i: int,
    j: int,
    first_id: u64,
    second_id: u64,
    first_entry: DcaEntry,
    second_entry: DcaEntry,
)
    requires
        forall|k: int|
            0 <= k < models.len() - 1 ==> #[trigger] lifecycle_step(models[k], models[k + 1]),
        0 <= i,
        i + 1 <= j,
        j + 1 < models.len(),
        created(models[i], models[i + 1], first_id, first_entry),
        created(models[j], models[j + 1], second_id, second_entry),
    ensures
        first_id < second_id,
{
    lemma_run_allocator_monotone(models, i + 1, j);
}

/// A configuration update with every field unset leaves the configuration —
/// indeed the whole state — unchanged.
pub proof fn lemma_update_config_all_unset(m: DcaModel, caller: Seq<char>, u: ConfigUpdate)
    requires
        caller == m.admin,
        u == (ConfigUpdate {
            native_denom: None,
            dca_creation_amount: None,
            refill_threshold: None,
            max_spread: None,
        }),
    ensures
        update_config_spec(m, caller, u) == (Ok::<(), DcaError>(()), m),
{
}

/// A configuration update by the administrator succeeds and changes exactly
/// the supplied fields: a set field takes the supplied value, an unset field
/// keeps its stored value, and the plans, allocator and administrator are
/// untouched.
pub proof fn lemma_update_config_exact_fields(m: DcaModel, caller: Seq<char>, u: ConfigUpdate)
    requires
        caller == m.admin,
    ensures
        update_config_spec(m, caller, u).0 == Ok::<(), DcaError>(()),
        ({
            let c = update_config_spec(m, caller, u).1.config;
            &&& c == apply_update(m.config, u)
            &&& match u.native_denom {
                Some(d) => c.native_denom == d,
                None => c.native_denom == m.config.native_denom,
            }
            &&& match u.dca_creation_amount {
                Some(a) => c.dca_creation_amount == a,
                None => c.dca_creation_amount == m.config.dca_creation_amount,
            }
            &&& match u.refill_threshold {
                Some(t) => c.refill_threshold == t,
                None => c.refill_threshold == m.config.refill_threshold,
            }
            &&& match u.max_spread {
                Some(s) => c.max_spread == s,
                None => c.max_spread == m.config.max_spread,
            }
        }),
        update_config_spec(m, caller, u).1.plans == m.plans,
        update_config_spec(m, caller, u).1.next_id == m.next_id,
        update_config_spec(m, caller, u).1.admin == m.admin,
{
}

/// When the simulated swap is infeasible, a creation by the administrator
/// fails with `SwapUnavailable` and persists nothing: no entry appears and
/// no id is consumed.
pub proof fn lemma_create_unavailable_persists_nothing(
    m: DcaModel,
    caller: Seq<char>,
    source_asset: OfferAsset,
    target_asset: String,
    frequency: Frequency,
    dex: String,
)
    requires
        caller == m.admin,
    ensures
        create_dca_spec(m, caller, source_asset, target_asset, frequency, dex, false) == (
            Err::<(u64, Seq<Instruction>), DcaError>(DcaError::SwapUnavailable),
            m,
        ),
{
}

/// A successful update that supplies a frequency emits exactly two
/// scheduling instructions — first the removal of the old task, then the
/// registration of the new one; an update that supplies none emits no
/// scheduling instruction at all.
pub proof fn lemma_update_reschedules_exactly(
    m: DcaModel,
    caller: Seq<char>,
    dca_id: u64,
    new_source_asset: Option<OfferAsset>,
    new_target_asset: Option<String>,
    new_frequency: Option<Frequency>,
    new_dex: Option<String>,
)
    requires
        caller == m.admin,
        m.plans.dom().contains(dca_id),
    ensures
        ({
            let (res, _) = update_dca_spec(
                m,
                caller,
                dca_id,
                new_source_asset,
                new_target_asset,
                new_frequency,
                new_dex,
                true,
            );
            &&& res is Ok
            &&& match new_frequency {
                Some(f) => res == Ok::<Seq<Instruction>, DcaError>(
                    seq![
                        Instruction::DeregisterTask { dca_id },
                        register_task_instr(dca_id, f, m.config),
                    ],
                ),
                None => res == Ok::<Seq<Instruction>, DcaError>(Seq::empty()),
            }
        }),
{
}

/// After a cancellation, a lookup of the cancelled id yields `NotFound`, and
/// a convert trigger for it — whatever the caller and whatever the service
/// lookups returned — yields `NotFound` as well.
pub proof fn lemma_cancel_then_not_found(pre: DcaModel, post: DcaModel, dca_id: u64)
    requires
        cancelled(pre, post, dca_id),
    ensures
        load_entry_spec(post, dca_id) == Err::<DcaEntry, DcaError>(DcaError::NotFound),
        forall|caller: Seq<char>, manager: Result<Seq<char>, TaskQueryError>, balance: Result<
            u128,
            TaskQueryError,
        >|
            #[trigger] convert_spec(post, dca_id, caller, manager, balance) == Err::<
                Seq<Instruction>,
                DcaError,
            >(DcaError::NotFound),
{
}

/// A convert trigger from a caller that is not the registered manager of
/// the plan's task fails with `NotManagerConvert` and yields no instruction,
/// whatever the funding balance.  (For an id with no stored plan the trigger
/// fails earlier, with `NotFound`.)
pub proof fn lemma_convert_not_manager(
    m: DcaModel,
    dca_id: u64,
    caller: Seq<char>,
    manager_addr: Seq<char>,
    balance: Result<u128, TaskQueryError>,
)
    requires
        m.plans.dom().contains(dca_id),
        manager_addr != caller,
    ensures
        convert_spec(m, dca_id, caller, Ok(manager_addr), balance) == Err::<
            Seq<Instruction>,
            DcaError,
        >(DcaError::NotManagerConvert),
{
}

/// An authorized, funded convert refills exactly when the balance sits below
/// the refill threshold, and then the refill instruction precedes the swap
/// instruction; at or above the threshold the swap is the only instruction.
pub proof fn lemma_convert_refill_before_swap(
    m: DcaModel,
    dca_id: u64,
    caller: Seq<char>,
    balance: u128,
)
    requires
        m.plans.dom().contains(dca_id),
    ensures
        ({
            let r = convert_spec(m, dca_id, caller, Ok(caller), Ok(balance));
            let swap = swap_instr(m.plans[dca_id], m.config);
            let refill = Instruction::RefillTask { dca_id, funding: m.config.task_funding() };
            &&& balance < m.config.refill_threshold ==> r == Ok::<Seq<Instruction>, DcaError>(
                seq![refill, swap],
            )
            &&& balance >= m.config.refill_threshold ==> r == Ok::<Seq<Instruction>, DcaError>(
                seq![swap],
            )
        }),
{
}

} // verus!
