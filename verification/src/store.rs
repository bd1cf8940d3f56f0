//! The plan store: durable keyed storage of DCA plans together with the
//! monotonic id allocator.

use vstd::prelude::*;

use crate::frequency::Frequency;
use crate::types::OfferAsset;

verus! {

/// One DCA plan: what to convert, into what, how often, and where.
#[derive(Debug, PartialEq, Eq)]
pub struct DcaEntry {
    /// Asset and fixed amount to convert from, per execution.
    pub source_asset: OfferAsset,
    /// Asset to convert into.
    pub target_asset: String,
    /// Cadence of the plan.
    pub frequency: Frequency,
    /// Identifier of the exchange venue used for the swap.
    pub dex: String,
}

impl Clone for DcaEntry {
    fn clone(&self) -> (res: Self)
        ensures
            res == *self,
    {
        DcaEntry {
            source_asset: self.source_asset.clone(),
            target_asset: self.target_asset.clone(),
            frequency: self.frequency,
            dex: self.dex.clone(),
        }
    }
}

impl DcaEntry {
    /// A stored plan always carries a supported cadence; unsupported
    /// cadences are rejected when a [`Frequency`] is constructed.
    pub open spec fn valid(self) -> bool {
        self.frequency.valid()
    }
}

/// Durable storage of plans keyed by id, plus the id allocator.
///
/// Slot `i` of the vector holds the plan with id `i + 1`; the next fresh id
/// is always one past the last slot.  Cancelling a plan empties its slot but
/// keeps it, so an id, once allocated, is never reused for the life of the
/// store.
pub struct PlanStore {
    slots: Vec<Option<DcaEntry>>,
}

impl PlanStore {
    /// The id the allocator hands out next.  Ids start at 1 and grow by one
    /// per successful allocation.
    pub closed spec fn next_id(&self) -> int {
        self.slots@.len() + 1int
    }

    /// The stored plans, as a map from id to entry.
    pub closed spec fn plans(&self) -> Map<u64, DcaEntry> {
        Map::new(
            |id: u64| 1 <= id <= self.slots@.len() && self.slots@[id - 1] is Some,
            |id: u64| self.slots@[id - 1]->0,
        )
    }

    /// The allocator never sits below its starting id.
    pub proof fn lemma_next_id_pos(&self)
        ensures
            self.next_id() >= 1,
    {
    }

    /// An empty store whose allocator starts at id 1.
    pub fn empty() -> (r: PlanStore)
        ensures
            r.plans() == Map::<u64, DcaEntry>::empty(),
            r.next_id() == 1,
    {
        let r = PlanStore { slots: Vec::new() };
        proof {
            assert(r.plans() =~= Map::<u64, DcaEntry>::empty());
        }
        r
    }

    /// Whether the allocator can still hand out a fresh id; false only once
    /// every id of the id type has been allocated.
    pub fn can_allocate(&self) -> (b: bool)
        ensures
            b == (self.next_id() <= u64::MAX),
    {
        (self.slots.len() as u64) < u64::MAX
    }

    /// Allocate a fresh id and persist `entry` under it.  The id is the
    /// allocator's current value, which is incremented exactly once.
    pub fn allocate(&mut self, entry: DcaEntry) -> (id: u64)
        requires
            old(self).next_id() <= u64::MAX,
        ensures
            id == old(self).next_id(),
            !old(self).plans().dom().contains(id),
            final(self).plans() == old(self).plans().insert(id, entry),
            final(self).next_id() == old(self).next_id() + 1,
    {
        let id = (self.slots.len() as u64) + 1;
        self.slots.push(Some(entry));
        proof {
            assert(self.plans() =~= old(self).plans().insert(id, entry));
        }
        id
    }

    /// Look up the plan stored under `id`.
    pub fn get(&self, id: u64) -> (r: Option<&DcaEntry>)
        ensures
            match r {
                Some(e) => self.plans().dom().contains(id) && *e == self.plans()[id],
                None => !self.plans().dom().contains(id),
            },
    {
        if id == 0 {
            return None;
        }
        let idx = id - 1;
        if idx >= self.slots.len() as u64 {
            return None;
        }
        match &self.slots[idx as usize] {
            Some(e) => Some(e),
            None => None,
        }
    }

    /// Overwrite the plan stored under `id`.  The id is stable: the
    /// allocator does not move.
    pub fn replace(&mut self, id: u64, entry: DcaEntry)
        requires
            old(self).plans().dom().contains(id),
        ensures
            final(self).plans() == old(self).plans().insert(id, entry),
            final(self).next_id() == old(self).next_id(),
    {
        let n = self.slots.len();
        proof {
            assert(1 <= id <= n);
        }
        let idx = (id - 1) as usize;
        self.slots[idx] = Some(entry);
        proof {
            assert(self.plans() =~= old(self).plans().insert(id, entry));
        }
    }

    /// Remove the plan stored under `id`.  Its slot stays behind, so the id
    /// is never handed out again.
    pub fn remove(&mut self, id: u64)
        requires
            old(self).plans().dom().contains(id),
        ensures
            final(self).plans() == old(self).plans().remove(id),
            final(self).next_id() == old(self).next_id(),
    {
        let n = self.slots.len();
        proof {
            assert(1 <= id <= n);
        }
        let idx = (id - 1) as usize;
        self.slots[idx] = None;
        proof {
            assert(self.plans() =~= old(self).plans().remove(id));
        }
    }
}

} // verus!
