//! What holds of the store across several calls.
use crate::records::MapData;
use crate::resource::{fits, LoadError, LoadStage, Loaded, Resource, SaveError};
use crate::save::{save_from, save_run};
use crate::store::{load_from, load_run, map_load_result, reads_fit, CacheView};
use vstd::prelude::*;

verus! {

proof fn lemma_each_read_fits(reads: spec_fn(LoadStage) -> Result<Loaded, String>)
    requires
        reads_fit(reads),
    ensures
        reads(LoadStage::System) is Ok ==> fits(LoadStage::System, reads(LoadStage::System)->Ok_0),
        reads(LoadStage::MapInfos) is Ok ==> fits(LoadStage::MapInfos, reads(LoadStage::MapInfos)->Ok_0),
        reads(LoadStage::Tilesets) is Ok ==> fits(LoadStage::Tilesets, reads(LoadStage::Tilesets)->Ok_0),
        reads(LoadStage::CommonEvents) is Ok ==> fits(LoadStage::CommonEvents, reads(LoadStage::CommonEvents)->Ok_0),
        reads(LoadStage::Items) is Ok ==> fits(LoadStage::Items, reads(LoadStage::Items)->Ok_0),
        reads(LoadStage::ExtendedScripts) is Ok ==> fits(LoadStage::ExtendedScripts, reads(LoadStage::ExtendedScripts)->Ok_0),
        reads(LoadStage::Scripts) is Ok ==> fits(LoadStage::Scripts, reads(LoadStage::Scripts)->Ok_0),
{
}

/// Loading a project twice from unchanged storage gives the same singleton
/// slots and the same result both times, whatever maps were cached between
/// the two loads; after a successful load no map is cached.
#[verifier::rlimit(100)]
pub proof fn reload_is_idempotent(
    v: CacheView,
    between: CacheView,
    reads: spec_fn(LoadStage) -> Result<Loaded, String>,
)
    requires
        reads_fit(reads),
        between.same_singletons(load_run(v, reads).0),
    ensures
        load_run(between, reads).0.same_singletons(load_run(v, reads).0),
        load_run(between, reads).1 == load_run(v, reads).1,
        load_run(v, reads).1 is Ok ==> load_run(v, reads).0.map_ids.len() == 0
            && load_run(between, reads).0.map_ids.len() == 0,
{
    lemma_each_read_fits(reads);
    reveal_with_fuel(load_from, 8);
}

/// When the extended script list cannot be read and everything before it can,
/// a project load reads the plain script list: it succeeds with that list in
/// the script slot when the plain read succeeds, and fails naming the script
/// list, with the plain read's cause, when that fails too.
#[verifier::rlimit(100)]
pub proof fn scripts_fall_back(v: CacheView, reads: spec_fn(LoadStage) -> Result<Loaded, String>)
    requires
        reads_fit(reads),
        reads(LoadStage::System) is Ok,
        reads(LoadStage::MapInfos) is Ok,
        reads(LoadStage::Tilesets) is Ok,
        reads(LoadStage::CommonEvents) is Ok,
        reads(LoadStage::Items) is Ok,
        reads(LoadStage::ExtendedScripts) is Err,
    ensures
        match reads(LoadStage::Scripts) {
            Ok(Loaded::Scripts(list)) => load_run(v, reads).1 is Ok && load_run(v, reads).0.scripts
                == Some(list),
            Err(cause) => load_run(v, reads).1 == Err::<(), LoadError>(
                LoadError { resource: Resource::Scripts, cause },
            ),
            _ => true,
        },
{
    lemma_each_read_fits(reads);
    reveal_with_fuel(load_from, 8);
}

/// A map that `load_map` has handed out stays cached: it is not read again,
/// a later `load_map` hands out the record as it was left, and so does
/// `get_map`.
pub proof fn loaded_map_is_memoized(
    v: CacheView,
    id: i32,
    fetched: Option<Result<MapData, String>>,
    left: MapData,
)
    requires
        v.wf(),
        !v.has_map(id) ==> fetched is Some,
        map_load_result(v, id, fetched) is Ok,
    ensures
        v.put_map(id, left).wf(),
        v.put_map(id, left).has_map(id),
        v.put_map(id, left).map(id) == left,
        forall|again: Option<Result<MapData, String>>|
            #[trigger] map_load_result(v.put_map(id, left), id, again) == Ok::<MapData, LoadError>(
                left,
            ),
{
    let w = v.put_map(id, left);
    if v.has_map(id) {
        let i = v.map_ids.index_of(id);
        assert(w.map_ids == v.map_ids);
        assert(w.map_ids.index_of(id) == i);
    } else {
        let n = v.map_ids.len() as int;
        assert(w.map_ids[n] == id);
        assert(w.map_ids.no_duplicates()) by {
            assert forall|a: int, b: int|
                0 <= a < w.map_ids.len() && 0 <= b < w.map_ids.len() && a != b implies w.map_ids[a]
                != w.map_ids[b] by {
                if a < n && b < n {
                    assert(v.map_ids[a] != v.map_ids[b]);
                } else if a < n {
                    assert(v.map_ids.contains(v.map_ids[a]));
                } else if b < n {
                    assert(v.map_ids.contains(v.map_ids[b]));
                }
            }
        }
        assert(w.map_ids.contains(id));
        let j = w.map_ids.index_of(id);
        assert(0 <= j < w.map_ids.len() && w.map_ids[j] == id);
        if j != n {
            assert(v.map_ids[j] == id);
            assert(v.map_ids.contains(id));
        }
    }
}

proof fn lemma_save_stops_at(plan: Seq<Resource>, outcomes: Seq<Result<(), String>>, i: nat, k: nat)
    requires
        outcomes.len() == plan.len(),
        i <= k < plan.len(),
        forall|j: int| 0 <= j < k ==> #[trigger] outcomes[j] is Ok,
        outcomes[k as int] is Err,
    ensures
        save_from(plan, outcomes, i) == (
            k + 1,
            Err::<(), SaveError>(
                SaveError { resource: plan[k as int], cause: outcomes[k as int]->Err_0 },
            ),
        ),
    decreases k - i,
{
    if i < k {
        assert(outcomes[i as int] is Ok);
        lemma_save_stops_at(plan, outcomes, i + 1, k);
    }
}

/// A save stops at its first failure: when every write before position `k` of
/// the plan succeeds and the one at `k` fails, exactly the writes up to and
/// including `k` are made, once each, and the save fails naming `plan[k]`.
pub proof fn save_stops_at_first_failure(
    plan: Seq<Resource>,
    outcomes: Seq<Result<(), String>>,
    k: nat,
)
    requires
        outcomes.len() == plan.len(),
        k < plan.len(),
        forall|j: int| 0 <= j < k ==> #[trigger] outcomes[j] is Ok,
        outcomes[k as int] is Err,
    ensures
        save_run(plan, outcomes) == (
            k + 1,
            Err::<(), SaveError>(
                SaveError { resource: plan[k as int], cause: outcomes[k as int]->Err_0 },
            ),
        ),
{
    lemma_save_stops_at(plan, outcomes, 0, k);
}

proof fn lemma_save_completes(plan: Seq<Resource>, outcomes: Seq<Result<(), String>>, i: nat)
    requires
        outcomes.len() == plan.len(),
        i < plan.len(),
        forall|j: int| 0 <= j < plan.len() ==> #[trigger] outcomes[j] is Ok,
    ensures
        save_from(plan, outcomes, i) == (plan.len(), Ok::<(), SaveError>(())),
    decreases plan.len() - i,
{
    assert(outcomes[i as int] is Ok);
    if i + 1 < plan.len() {
        lemma_save_completes(plan, outcomes, i + 1);
    }
}

/// A save in which every write succeeds makes each write of the plan once and
/// succeeds.
pub proof fn save_succeeds_when_every_write_does(
    plan: Seq<Resource>,
    outcomes: Seq<Result<(), String>>,
)
    requires
        outcomes.len() == plan.len(),
        forall|j: int| 0 <= j < plan.len() ==> #[trigger] outcomes[j] is Ok,
    ensures
        save_run(plan, outcomes) == (plan.len(), Ok::<(), SaveError>(())),
{
    if plan.len() > 0 {
        lemma_save_completes(plan, outcomes, 0);
    }
}

} // verus!
