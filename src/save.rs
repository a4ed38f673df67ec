//! Writing the cache back to storage.
//!
//! A save writes every cached map, in the order the maps were loaded, then the
//! tileset list and the map index where they are loaded. The caller encodes
//! every resource of the plan before the first write, then writes them in
//! order; the first failure ends the save and nothing after it is written.
//! The system settings, common events, items and scripts are not part of a
//! save.
use crate::resource::{Resource, SaveError};
use crate::store::{CacheView, DataCache};
use vstd::prelude::*;

verus! {

/// The resources that a save of `v` writes, in order.
pub open spec fn save_plan_of(v: CacheView) -> Seq<Resource> {
    v.map_ids.map_values(|id: i32| Resource::MapFile(id)) + (if v.tilesets is Some {
        seq![Resource::Tilesets]
    } else {
        Seq::empty()
    }) + (if v.map_infos is Some {
        seq![Resource::MapInfos]
    } else {
        Seq::empty()
    })
}

/// What a save asks for next.
#[derive(Debug, PartialEq)]
pub enum SaveStep {
    /// Write the resource at this position of the plan and hand the outcome
    /// to `save_step`.
    Write(usize),
    /// The save is over, with this result.
    Finished(Result<(), SaveError>),
}

/// The step that a save of `plan` starts with.
pub open spec fn save_first(plan: Seq<Resource>) -> SaveStep {
    if plan.len() == 0 {
        SaveStep::Finished(Ok(()))
    } else {
        SaveStep::Write(0)
    }
}

/// The step after `outcome` came of encoding and writing `plan[index]`.
pub open spec fn save_next(plan: Seq<Resource>, index: int, outcome: Result<(), String>) -> SaveStep {
    match outcome {
        Err(cause) => SaveStep::Finished(Err(SaveError { resource: plan[index], cause })),
        Ok(()) => if index + 1 < plan.len() {
            SaveStep::Write((index + 1) as usize)
        } else {
            SaveStep::Finished(Ok(()))
        },
    }
}

/// How many writes a save of `plan` makes from position `index` on, and its
/// result, where `outcomes[i]` is what came of encoding and writing `plan[i]`.
pub open spec fn save_from(plan: Seq<Resource>, outcomes: Seq<Result<(), String>>, index: nat) -> (
    nat,
    Result<(), SaveError>,
)
    decreases plan.len() - index,
{
    if index >= plan.len() {
        (index, Ok(()))
    } else {
        match save_next(plan, index as int, outcomes[index as int]) {
            SaveStep::Write(_) => save_from(plan, outcomes, index + 1),
            SaveStep::Finished(r) => (index + 1, r),
        }
    }
}

/// How many writes a whole save of `plan` makes, and its result: the steps of
/// `save_step`, from `save_begin` on, taken one after the other.
pub open spec fn save_run(plan: Seq<Resource>, outcomes: Seq<Result<(), String>>) -> (
    nat,
    Result<(), SaveError>,
) {
    match save_first(plan) {
        SaveStep::Write(_) => save_from(plan, outcomes, 0),
        SaveStep::Finished(r) => (0, r),
    }
}

impl DataCache {
    /// The resources that a save writes, in order.
    pub fn save_plan(&self) -> (r: Vec<Resource>)
        requires
            self@.wf(),
        ensures
            r@ == save_plan_of(self@),
    {
        let ids = self.map_ids();
        let mut plan: Vec<Resource> = Vec::new();
        let mut i: usize = 0;
        while i < ids.len()
            invariant
                ids@ == self@.map_ids,
                i <= ids@.len(),
                plan@ =~= ids@.subrange(0, i as int).map_values(|id: i32| Resource::MapFile(id)),
            decreases ids@.len() - i,
        {
            plan.push(Resource::MapFile(ids[i]));
            i = i + 1;
            assert(plan@ =~= ids@.subrange(0, i as int).map_values(|id: i32| Resource::MapFile(id)));
        }
        assert(ids@.subrange(0, ids@.len() as int) =~= ids@);
        if self.tilesets_loaded() {
            plan.push(Resource::Tilesets);
        }
        if self.map_infos_loaded() {
            plan.push(Resource::MapInfos);
        }
        assert(plan@ =~= save_plan_of(self@));
        plan
    }
}

/// The step that a save of `plan` starts with.
pub fn save_begin(plan: &Vec<Resource>) -> (r: SaveStep)
    ensures
        r == save_first(plan@),
{
    if plan.len() == 0 {
        SaveStep::Finished(Ok(()))
    } else {
        SaveStep::Write(0)
    }
}

/// Takes what came of encoding and writing `plan[index]`, and says what to do
/// next.
pub fn save_step(plan: &Vec<Resource>, index: usize, outcome: Result<(), String>) -> (r: SaveStep)
    requires
        index < plan@.len(),
    ensures
        r == save_next(plan@, index as int, outcome),
{
    match outcome {
        Err(cause) => SaveStep::Finished(Err(SaveError { resource: plan[index], cause })),
        Ok(()) => if index < plan.len() - 1 {
            SaveStep::Write(index + 1)
        } else {
            SaveStep::Finished(Ok(()))
        },
    }
}

} // verus!
