//! The data cache of an open project.
use crate::names::{map_file_name, map_name_of};
use crate::records::{CommonEvent, Item, MapData, MapInfos, Script, System, Tileset};
use crate::resource::{fits, stage_after, stage_resource, LoadError, LoadStage, Loaded, Resource};
use vstd::prelude::*;

verus! {

/// What a `DataCache` holds: one optional value per singleton slot, and the
/// cached maps, as ids and records side by side in the order they were loaded.
pub struct CacheView {
    pub system: Option<System>,
    pub map_infos: Option<MapInfos>,
    pub tilesets: Option<Vec<Tileset>>,
    pub common_events: Option<Vec<CommonEvent>>,
    pub scripts: Option<Vec<Script>>,
    pub items: Option<Vec<Item>>,
    pub map_ids: Seq<i32>,
    pub maps: Seq<MapData>,
}

impl CacheView {
    /// One record per cached map id, and no id cached twice.
    pub open spec fn wf(self) -> bool {
        &&& self.map_ids.len() == self.maps.len()
        &&& self.map_ids.no_duplicates()
    }

    pub open spec fn has_map(self, id: i32) -> bool {
        self.map_ids.contains(id)
    }

    /// The cached record of map `id`.
    pub open spec fn map(self, id: i32) -> MapData
        recommends
            self.has_map(id),
    {
        self.maps[self.map_ids.index_of(id)]
    }

    /// The cache with `m` as the record of map `id`: in place where the id is
    /// cached, appended where it is not.
    pub open spec fn put_map(self, id: i32, m: MapData) -> CacheView {
        if self.has_map(id) {
            CacheView { maps: self.maps.update(self.map_ids.index_of(id), m), ..self }
        } else {
            CacheView { map_ids: self.map_ids.push(id), maps: self.maps.push(m), ..self }
        }
    }

    /// The cache with the slot that `loaded` is for set to it.
    pub open spec fn with_loaded(self, loaded: Loaded) -> CacheView {
        match loaded {
            Loaded::System(s) => CacheView { system: Some(s), ..self },
            Loaded::MapInfos(m) => CacheView { map_infos: Some(m), ..self },
            Loaded::Tilesets(t) => CacheView { tilesets: Some(t), ..self },
            Loaded::CommonEvents(c) => CacheView { common_events: Some(c), ..self },
            Loaded::Items(i) => CacheView { items: Some(i), ..self },
            Loaded::Scripts(s) => CacheView { scripts: Some(s), ..self },
        }
    }

    /// The cache with no map cached.
    pub open spec fn without_maps(self) -> CacheView {
        CacheView { map_ids: Seq::empty(), maps: Seq::empty(), ..self }
    }

    /// Whether the singleton slots of `self` and `other` hold the same values.
    pub open spec fn same_singletons(self, other: CacheView) -> bool {
        &&& self.system == other.system
        &&& self.map_infos == other.map_infos
        &&& self.tilesets == other.tilesets
        &&& self.common_events == other.common_events
        &&& self.scripts == other.scripts
        &&& self.items == other.items
    }
}

/// What a project load asks for next.
#[derive(Debug, PartialEq)]
pub enum LoadStep {
    /// Read the resource of this stage and hand the outcome to `load_step`.
    Read(LoadStage),
    /// The load is over, with this result.
    Finished(Result<(), LoadError>),
}

/// The step that a project load starts with.
pub open spec fn load_first() -> LoadStep {
    LoadStep::Read(LoadStage::System)
}

/// One step of a project load: the cache and the next step after `outcome`
/// came of reading `stage`.
///
/// A success fills the stage's slot; the last one also drops every cached map.
/// A failure leaves the cache as it is and ends the load with an error naming
/// the resource, except that of the extended script list, after which the
/// plain one is read.
pub open spec fn load_next(v: CacheView, stage: LoadStage, outcome: Result<Loaded, String>) -> (
    CacheView,
    LoadStep,
) {
    match outcome {
        Ok(loaded) => {
            let w = v.with_loaded(loaded);
            match stage_after(stage) {
                Some(next) => (w, LoadStep::Read(next)),
                None => (w.without_maps(), LoadStep::Finished(Ok(()))),
            }
        },
        Err(cause) => match stage {
            LoadStage::ExtendedScripts => (v, LoadStep::Read(LoadStage::Scripts)),
            _ => (
                v,
                LoadStep::Finished(Err(LoadError { resource: stage_resource(stage), cause })),
            ),
        },
    }
}

/// How many reads a project load may still make after reading `s`.
pub open spec fn stage_rank(s: LoadStage) -> nat {
    match s {
        LoadStage::System => 6,
        LoadStage::MapInfos => 5,
        LoadStage::Tilesets => 4,
        LoadStage::CommonEvents => 3,
        LoadStage::Items => 2,
        LoadStage::ExtendedScripts => 1,
        LoadStage::Scripts => 0,
    }
}

/// Whether every record that `reads` gives is the kind its stage reads.
pub open spec fn reads_fit(reads: spec_fn(LoadStage) -> Result<Loaded, String>) -> bool {
    forall|s: LoadStage| #[trigger] reads(s) is Ok ==> fits(s, reads(s)->Ok_0)
}

/// The cache and the result of a project load from `v` that has reached
/// `stage`, where storage gives `reads(s)` for a read of stage `s`.
pub open spec fn load_from(
    v: CacheView,
    stage: LoadStage,
    reads: spec_fn(LoadStage) -> Result<Loaded, String>,
) -> (CacheView, Result<(), LoadError>)
    decreases stage_rank(stage),
{
    let (w, step) = load_next(v, stage, reads(stage));
    match step {
        LoadStep::Read(next) => if stage_rank(next) < stage_rank(stage) {
            load_from(w, next, reads)
        } else {
            (w, Ok(()))
        },
        LoadStep::Finished(r) => (w, r),
    }
}

/// The cache and the result of a whole project load from `v`, where storage
/// gives `reads(s)` for a read of stage `s`: the steps of `load_step`, from
/// `load_begin` on, taken one after the other.
pub open spec fn load_run(v: CacheView, reads: spec_fn(LoadStage) -> Result<Loaded, String>) -> (
    CacheView,
    Result<(), LoadError>,
) {
    match load_first() {
        LoadStep::Read(stage) => load_from(v, stage, reads),
        LoadStep::Finished(r) => (v, r),
    }
}

/// What `load_map` hands out: the cached record where there is one, else the
/// fetched record, else an error naming the map.
pub open spec fn map_load_result(v: CacheView, id: i32, fetched: Option<Result<MapData, String>>) -> Result<
    MapData,
    LoadError,
> {
    if v.has_map(id) {
        Ok(v.map(id))
    } else {
        match fetched {
            Some(Ok(m)) => Ok(m),
            Some(Err(cause)) => Err(LoadError { resource: Resource::MapFile(id), cause }),
            None => arbitrary(),
        }
    }
}

/// The in-memory records of an open project.
///
/// Singleton slots are filled by a project load; maps are loaded one at a time
/// on first use and stay cached until the next project load.
pub struct DataCache {
    system: Option<System>,
    map_infos: Option<MapInfos>,
    tilesets: Option<Vec<Tileset>>,
    common_events: Option<Vec<CommonEvent>>,
    scripts: Option<Vec<Script>>,
    items: Option<Vec<Item>>,
    map_ids: Vec<i32>,
    maps: Vec<MapData>,
}

impl View for DataCache {
    type V = CacheView;

    closed spec fn view(&self) -> CacheView {
        CacheView {
            system: self.system,
            map_infos: self.map_infos,
            tilesets: self.tilesets,
            common_events: self.common_events,
            scripts: self.scripts,
            items: self.items,
            map_ids: self.map_ids@,
            maps: self.maps@,
        }
    }
}

proof fn lemma_push_then_update(s: Seq<MapData>, m: MapData)
    ensures
        forall|f: MapData| #[trigger] s.push(m).update(s.len() as int, f) == s.push(f),
{
    assert forall|f: MapData| #[trigger] s.push(m).update(s.len() as int, f) == s.push(f) by {
        assert(s.push(m).update(s.len() as int, f) =~= s.push(f));
    }
}

proof fn lemma_index_of_unique(s: Seq<i32>, i: int)
    requires
        s.no_duplicates(),
        0 <= i < s.len(),
    ensures
        s.contains(s[i]),
        s.index_of(s[i]) == i,
{
    assert(s.contains(s[i]));
}

impl Default for DataCache {
    /// An empty cache, as `new` makes it.
    fn default() -> (r: DataCache)
        ensures
            r@.wf(),
            r@.system is None,
            r@.map_infos is None,
            r@.tilesets is None,
            r@.common_events is None,
            r@.scripts is None,
            r@.items is None,
            r@.map_ids.len() == 0,
    {
        DataCache::new()
    }
}

impl DataCache {
    /// An empty cache: no slot filled, no map cached.
    pub fn new() -> (r: DataCache)
        ensures
            r@.wf(),
            r@.system is None,
            r@.map_infos is None,
            r@.tilesets is None,
            r@.common_events is None,
            r@.scripts is None,
            r@.items is None,
            r@.map_ids.len() == 0,
    {
        DataCache {
            system: None,
            map_infos: None,
            tilesets: None,
            common_events: None,
            scripts: None,
            items: None,
            map_ids: Vec::new(),
            maps: Vec::new(),
        }
    }

    /// The step that a project load starts with.
    pub fn load_begin(&self) -> (r: LoadStep)
        ensures
            r == load_first(),
    {
        LoadStep::Read(LoadStage::System)
    }

    /// Takes what came of reading `stage` during a project load, and says what
    /// to do next.
    pub fn load_step(&mut self, stage: LoadStage, outcome: Result<Loaded, String>) -> (r: LoadStep)
        requires
            outcome is Ok ==> fits(stage, outcome->Ok_0),
        ensures
            (final(self)@, r) == load_next(old(self)@, stage, outcome),
            old(self)@.wf() ==> final(self)@.wf(),
    {
        match outcome {
            Ok(loaded) => {
                match loaded {
                    Loaded::System(s) => self.system = Some(s),
                    Loaded::MapInfos(m) => self.map_infos = Some(m),
                    Loaded::Tilesets(t) => self.tilesets = Some(t),
                    Loaded::CommonEvents(c) => self.common_events = Some(c),
                    Loaded::Items(i) => self.items = Some(i),
                    Loaded::Scripts(s) => self.scripts = Some(s),
                }
                match stage.next() {
                    Some(next) => LoadStep::Read(next),
                    None => {
                        self.map_ids.clear();
                        self.maps.clear();
                        assert(self@ =~= old(self)@.with_loaded(loaded).without_maps());
                        LoadStep::Finished(Ok(()))
                    },
                }
            },
            Err(cause) => match stage {
                LoadStage::ExtendedScripts => LoadStep::Read(LoadStage::Scripts),
                _ => LoadStep::Finished(Err(LoadError { resource: stage.resource(), cause })),
            },
        }
    }

    /// The position of map `id` among the cached maps.
    fn find_map(&self, id: i32) -> (r: Option<usize>)
        requires
            self@.wf(),
        ensures
            r is None <==> !self@.has_map(id),
            r is Some ==> {
                &&& r->Some_0 < self.maps@.len()
                &&& self.map_ids@[r->Some_0 as int] == id
                &&& self@.map_ids.index_of(id) == r->Some_0
            },
    {
        let mut i: usize = 0;
        while i < self.map_ids.len()
            invariant
                self@.wf(),
                i <= self.map_ids@.len(),
                forall|j: int| 0 <= j < i ==> self.map_ids@[j] != id,
            decreases self.map_ids@.len() - i,
        {
            if self.map_ids[i] == id {
                proof {
                    lemma_index_of_unique(self.map_ids@, i as int);
                }
                return Some(i);
            }
            i = i + 1;
        }
        None
    }

    /// Whether map `id` is cached.
    pub fn has_map(&self, id: i32) -> (r: bool)
        requires
            self@.wf(),
        ensures
            r == self@.has_map(id),
    {
        self.find_map(id).is_some()
    }

    /// The storage name to read before `load_map(id, ..)`, or `None` when map
    /// `id` is cached and nothing needs to be read.
    pub fn map_to_read(&self, id: i32) -> (r: Option<String>)
        requires
            self@.wf(),
        ensures
            r is None <==> self@.has_map(id),
            r is Some ==> r->Some_0@ == map_name_of(id),
    {
        if self.has_map(id) {
            None
        } else {
            Some(map_file_name(id))
        }
    }

    /// A handle on map `id`. A cached map is handed out as it is and
    /// `fetched` is not looked at; otherwise `fetched` is what came of reading
    /// `map_to_read(id)`, and a record read is cached before it is handed out.
    /// On an error the cache is left as it was.
    pub fn load_map(&mut self, id: i32, fetched: Option<Result<MapData, String>>) -> (r: Result<
        &mut MapData,
        LoadError,
    >)
        requires
            old(self)@.wf(),
            !old(self)@.has_map(id) ==> fetched is Some,
        ensures
            match map_load_result(old(self)@, id, fetched) {
                Ok(m) => {
                    &&& r is Ok
                    &&& *r->Ok_0 == m
                    &&& final(self)@ == old(self)@.put_map(id, *final(r->Ok_0))
                },
                Err(e) => r is Err && r->Err_0 == e && final(self)@ == old(self)@,
            },
            final(self)@.wf(),
    {
        match self.find_map(id) {
            Some(i) => Ok(&mut self.maps[i]),
            None => match fetched {
                Some(Ok(m)) => {
                    self.map_ids.push(id);
                    self.maps.push(m);
                    proof {
                        lemma_push_then_update(old(self).maps@, m);
                        assert(self.map_ids@.no_duplicates());
                    }
                    let n = self.maps.len() - 1;
                    Ok(&mut self.maps[n])
                },
                Some(Err(cause)) => Err(LoadError { resource: Resource::MapFile(id), cause }),
                None => Err(LoadError { resource: Resource::MapFile(id), cause: String::new() }),
            },
        }
    }

    /// A handle on map `id`, which must be cached already: a map is first
    /// reached through `load_map`.
    pub fn get_map(&mut self, id: i32) -> (r: &mut MapData)
        requires
            old(self)@.wf(),
            old(self)@.has_map(id),
        ensures
            *r == old(self)@.map(id),
            final(self)@ == old(self)@.put_map(id, *final(r)),
            final(self)@.wf(),
    {
        match self.find_map(id) {
            Some(i) => &mut self.maps[i],
            None => {
                assert(false);
                &mut self.maps[0]
            },
        }
    }

    /// The map index. `None` until a project load has filled the slot.
    pub fn map_infos(&mut self) -> (r: &mut Option<MapInfos>)
        ensures
            *r == old(self)@.map_infos,
            final(self)@ == (CacheView { map_infos: *final(r), ..old(self)@ }),
    {
        &mut self.map_infos
    }

    /// The tileset list. `None` until a project load has filled the slot.
    pub fn tilesets(&mut self) -> (r: &mut Option<Vec<Tileset>>)
        ensures
            *r == old(self)@.tilesets,
            final(self)@ == (CacheView { tilesets: *final(r), ..old(self)@ }),
    {
        &mut self.tilesets
    }

    /// The system settings. `None` until a project load has filled the slot.
    pub fn system(&mut self) -> (r: &mut Option<System>)
        ensures
            *r == old(self)@.system,
            final(self)@ == (CacheView { system: *final(r), ..old(self)@ }),
    {
        &mut self.system
    }

    /// The common event list. `None` until a project load has filled the slot.
    pub fn common_events(&mut self) -> (r: &mut Option<Vec<CommonEvent>>)
        ensures
            *r == old(self)@.common_events,
            final(self)@ == (CacheView { common_events: *final(r), ..old(self)@ }),
    {
        &mut self.common_events
    }

    /// The script list. `None` until a project load has filled the slot.
    pub fn scripts(&mut self) -> (r: &mut Option<Vec<Script>>)
        ensures
            *r == old(self)@.scripts,
            final(self)@ == (CacheView { scripts: *final(r), ..old(self)@ }),
    {
        &mut self.scripts
    }

    /// The item list. `None` until a project load has filled the slot.
    pub fn items(&mut self) -> (r: &mut Option<Vec<Item>>)
        ensures
            *r == old(self)@.items,
            final(self)@ == (CacheView { items: *final(r), ..old(self)@ }),
    {
        &mut self.items
    }

    /// The ids of the cached maps, in the order they were loaded.
    pub fn map_ids(&self) -> (r: &Vec<i32>)
        ensures
            r@ == self@.map_ids,
    {
        &self.map_ids
    }

    /// Whether the tileset list is loaded.
    pub fn tilesets_loaded(&self) -> (r: bool)
        ensures
            r == self@.tilesets is Some,
    {
        self.tilesets.is_some()
    }

    /// Whether the map index is loaded.
    pub fn map_infos_loaded(&self) -> (r: bool)
        ensures
            r == self@.map_infos is Some,
    {
        self.map_infos.is_some()
    }
}

} // verus!
