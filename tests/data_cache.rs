use luminol::records::{Item, MapData, MapInfo, Script, System, Tileset};
use luminol::resource::{LoadError, LoadStage, Loaded, Resource, SaveError};
use luminol::save::{save_begin, save_step, SaveStep};
use luminol::store::{DataCache, LoadStep};
use std::collections::HashMap;

/// Storage as a table from names to what a read gives; a missing name fails.
struct Backend {
    files: HashMap<String, Loaded>,
    reads: Vec<String>,
}

impl Backend {
    fn new() -> Backend {
        Backend { files: HashMap::new(), reads: Vec::new() }
    }

    fn with(mut self, name: &str, loaded: Loaded) -> Backend {
        self.files.insert(name.to_string(), loaded);
        self
    }

    fn read(&mut self, name: String) -> Result<Loaded, String> {
        self.reads.push(name.clone());
        self.files.get(&name).cloned().ok_or(format!("{} not found", name))
    }
}

fn empty_project() -> Backend {
    Backend::new()
        .with("System.ron", Loaded::System(System::default()))
        .with("MapInfos.ron", Loaded::MapInfos(HashMap::new()))
        .with("Tilesets.ron", Loaded::Tilesets(Vec::new()))
        .with("CommonEvents.ron", Loaded::CommonEvents(Vec::new()))
        .with("Items.ron", Loaded::Items(Vec::new()))
        .with("Scripts.ron", Loaded::Scripts(Vec::new()))
}

fn load(cache: &mut DataCache, backend: &mut Backend) -> Result<(), LoadError> {
    let mut step = cache.load_begin();
    loop {
        match step {
            LoadStep::Read(stage) => {
                let outcome = backend.read(stage.file_name());
                step = cache.load_step(stage, outcome);
            }
            LoadStep::Finished(result) => return result,
        }
    }
}

fn town(name: &str) -> MapData {
    MapData { name: name.to_string(), width: 20, height: 15, ..MapData::default() }
}

fn cache_map(cache: &mut DataCache, id: i32, map: MapData) {
    assert!(cache.map_to_read(id).is_some());
    assert!(cache.load_map(id, Some(Ok(map))).is_ok());
}

/// Runs a save in which the write at each position of `fail_at` fails;
/// returns the result and the positions written.
fn save(cache: &DataCache, fail_at: &[usize]) -> (Result<(), SaveError>, Vec<usize>) {
    let plan = cache.save_plan();
    let mut written = Vec::new();
    let mut step = save_begin(&plan);
    loop {
        match step {
            SaveStep::Write(i) => {
                written.push(i);
                let outcome =
                    if fail_at.contains(&i) { Err("disk full".to_string()) } else { Ok(()) };
                step = save_step(&plan, i, outcome);
            }
            SaveStep::Finished(result) => return (result, written),
        }
    }
}

#[test]
fn load_fills_every_slot_from_the_plain_script_list() {
    let mut cache = DataCache::new();
    let mut backend = empty_project();
    assert_eq!(load(&mut cache, &mut backend), Ok(()));
    assert_eq!(*cache.system(), Some(System::default()));
    assert_eq!(*cache.map_infos(), Some(HashMap::new()));
    assert_eq!(*cache.tilesets(), Some(Vec::new()));
    assert_eq!(*cache.common_events(), Some(Vec::new()));
    assert_eq!(*cache.items(), Some(Vec::new()));
    assert_eq!(*cache.scripts(), Some(Vec::new()));
    assert_eq!(
        backend.reads,
        vec![
            "System.ron",
            "MapInfos.ron",
            "Tilesets.ron",
            "CommonEvents.ron",
            "Items.ron",
            "xScripts.ron",
            "Scripts.ron"
        ]
    );
}

#[test]
fn load_map_then_get_map_hand_out_the_same_record() {
    let mut cache = DataCache::new();
    let name = cache.map_to_read(1);
    assert_eq!(name, Some("Map001.ron".to_string()));
    let handle = cache.load_map(1, Some(Ok(town("Town")))).unwrap();
    assert_eq!(handle.name, "Town");
    assert_eq!(cache.get_map(1).name, "Town");
    assert_eq!(*cache.get_map(1), town("Town"));
}

#[test]
fn reload_gives_the_same_slots_and_drops_cached_maps() {
    let mut cache = DataCache::new();
    let script = Script { id: 1, name: "Main".to_string(), script_text: "p 1".to_string() };
    let mut backend = empty_project()
        .with("xScripts.ron", Loaded::Scripts(vec![script.clone()]))
        .with("Items.ron", Loaded::Items(vec![Item { id: 1, name: "Potion".to_string(), price: 50, ..Item::default() }]));
    assert_eq!(load(&mut cache, &mut backend), Ok(()));
    let items = cache.items().clone();
    let scripts = cache.scripts().clone();
    cache_map(&mut cache, 4, town("Harbor"));
    assert_eq!(cache.map_ids(), &vec![4]);
    assert_eq!(load(&mut cache, &mut backend), Ok(()));
    assert_eq!(*cache.items(), items);
    assert_eq!(*cache.scripts(), scripts);
    assert_eq!(*cache.scripts(), Some(vec![script]));
    assert!(cache.map_ids().is_empty());
    assert!(!cache.has_map(4));
    assert_eq!(cache.map_to_read(4), Some("Map004.ron".to_string()));
}

#[test]
fn a_cached_map_is_read_once() {
    let mut cache = DataCache::new();
    let mut reads = 0;
    for _ in 0..3 {
        let fetched = match cache.map_to_read(7) {
            Some(name) => {
                assert_eq!(name, "Map007.ron");
                reads += 1;
                Some(Ok(town("Cave")))
            }
            None => None,
        };
        let handle = cache.load_map(7, fetched).unwrap();
        handle.width = handle.width + 1;
    }
    assert_eq!(reads, 1);
    assert_eq!(cache.get_map(7).width, 23);
}

#[test]
fn a_failed_map_read_leaves_the_cache_alone() {
    let mut cache = DataCache::new();
    cache_map(&mut cache, 2, town("Field"));
    let err = cache.load_map(3, Some(Err("no such file".to_string()))).unwrap_err();
    assert_eq!(err, LoadError { resource: Resource::MapFile(3), cause: "no such file".to_string() });
    assert_eq!(cache.map_ids(), &vec![2]);
    assert!(!cache.has_map(3));
}

#[test]
fn a_cached_map_ignores_what_was_fetched() {
    let mut cache = DataCache::new();
    cache_map(&mut cache, 2, town("Field"));
    let handle = cache.load_map(2, Some(Ok(town("Other")))).unwrap();
    assert_eq!(handle.name, "Field");
}

#[test]
fn load_falls_back_to_the_plain_script_list() {
    let mut cache = DataCache::new();
    let script = Script { id: 3, name: "Scene".to_string(), script_text: String::new() };
    let mut backend = empty_project().with("Scripts.ron", Loaded::Scripts(vec![script.clone()]));
    assert_eq!(load(&mut cache, &mut backend), Ok(()));
    assert_eq!(*cache.scripts(), Some(vec![script]));
}

#[test]
fn load_fails_naming_scripts_when_both_lists_are_missing() {
    let mut cache = DataCache::new();
    let mut backend = empty_project();
    backend.files.remove("Scripts.ron");
    let err = load(&mut cache, &mut backend).unwrap_err();
    assert_eq!(err.resource, Resource::Scripts);
    assert_eq!(err.cause, "Scripts.ron not found");
    assert_eq!(*cache.items(), Some(Vec::new()));
    assert_eq!(*cache.scripts(), None);
}

#[test]
fn load_stops_at_the_first_failed_read() {
    let mut cache = DataCache::new();
    let mut backend = empty_project();
    backend.files.remove("Tilesets.ron");
    cache_map(&mut cache, 9, town("Keep"));
    let err = load(&mut cache, &mut backend).unwrap_err();
    assert_eq!(err, LoadError { resource: Resource::Tilesets, cause: "Tilesets.ron not found".to_string() });
    assert_eq!(backend.reads, vec!["System.ron", "MapInfos.ron", "Tilesets.ron"]);
    assert_eq!(*cache.system(), Some(System::default()));
    assert_eq!(*cache.map_infos(), Some(HashMap::new()));
    assert_eq!(*cache.tilesets(), None);
    assert_eq!(*cache.common_events(), None);
    assert!(cache.has_map(9));
}

#[test]
fn load_fails_on_a_missing_system() {
    let mut cache = DataCache::new();
    let mut backend = Backend::new();
    let err = load(&mut cache, &mut backend).unwrap_err();
    assert_eq!(err, LoadError { resource: Resource::System, cause: "System.ron not found".to_string() });
    assert_eq!(*cache.system(), None);
}

#[test]
fn load_step_reports_common_events_and_items() {
    let mut cache = DataCache::new();
    let step = cache.load_step(LoadStage::CommonEvents, Err("bad".to_string()));
    assert_eq!(
        step,
        LoadStep::Finished(Err(LoadError { resource: Resource::CommonEvents, cause: "bad".to_string() }))
    );
    let step = cache.load_step(LoadStage::Items, Err("worse".to_string()));
    assert_eq!(
        step,
        LoadStep::Finished(Err(LoadError { resource: Resource::Items, cause: "worse".to_string() }))
    );
    let step = cache.load_step(LoadStage::ExtendedScripts, Err("gone".to_string()));
    assert_eq!(step, LoadStep::Read(LoadStage::Scripts));
}

#[test]
fn save_stops_after_the_first_failed_write() {
    let mut cache = DataCache::new();
    cache_map(&mut cache, 1, town("A"));
    cache_map(&mut cache, 2, town("B"));
    cache_map(&mut cache, 3, town("C"));
    let (result, written) = save(&cache, &[1]);
    assert_eq!(result, Err(SaveError { resource: Resource::MapFile(2), cause: "disk full".to_string() }));
    assert_eq!(written, vec![0, 1]);
}

#[test]
fn save_plan_writes_maps_then_tilesets_then_the_map_index() {
    let mut cache = DataCache::new();
    let mut backend = empty_project()
        .with("Tilesets.ron", Loaded::Tilesets(vec![Tileset { id: 1, name: "Grass".to_string(), ..Tileset::default() }]));
    assert_eq!(load(&mut cache, &mut backend), Ok(()));
    cache_map(&mut cache, 12, town("Port"));
    cache_map(&mut cache, 5, town("Hill"));
    let plan = cache.save_plan();
    assert_eq!(
        plan,
        vec![Resource::MapFile(12), Resource::MapFile(5), Resource::Tilesets, Resource::MapInfos]
    );
    let names: Vec<String> = plan.iter().map(|r| r.file_name()).collect();
    assert_eq!(names, vec!["Map012.ron", "Map005.ron", "Tilesets.ron", "MapInfos.ron"]);
    let (result, written) = save(&cache, &[]);
    assert_eq!(result, Ok(()));
    assert_eq!(written, vec![0, 1, 2, 3]);
}

#[test]
fn save_of_an_empty_cache_writes_nothing() {
    let cache = DataCache::new();
    let plan = cache.save_plan();
    assert!(plan.is_empty());
    assert_eq!(save_begin(&plan), SaveStep::Finished(Ok(())));
}

#[test]
fn save_fails_on_the_map_index() {
    let mut cache = DataCache::new();
    *cache.map_infos() = Some(HashMap::from([(1, MapInfo { name: "Town".to_string(), ..MapInfo::default() })]));
    let (result, written) = save(&cache, &[0]);
    assert_eq!(result, Err(SaveError { resource: Resource::MapInfos, cause: "disk full".to_string() }));
    assert_eq!(written, vec![0]);
}

#[test]
fn accessors_change_the_slots() {
    let mut cache = DataCache::new();
    *cache.system() = Some(System { start_map_id: 3, ..System::default() });
    *cache.tilesets() = Some(vec![Tileset::default()]);
    assert_eq!(cache.system().as_ref().map(|s| s.start_map_id), Some(3));
    assert!(cache.tilesets_loaded());
    assert!(!cache.map_infos_loaded());
    assert_eq!(*cache.common_events(), None);
}

#[test]
fn a_default_cache_is_empty() {
    let mut cache = DataCache::default();
    assert_eq!(*cache.system(), None);
    assert_eq!(*cache.scripts(), None);
    assert!(cache.map_ids().is_empty());
    assert!(cache.save_plan().is_empty());
}
