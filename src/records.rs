//! The project records that the store keeps in memory.
//!
//! The store never looks inside a record: it only moves records between its
//! slots and its callers. The fields here are the parts of each record that
//! the editor reads and writes.
use std::collections::HashMap;
use vstd::prelude::*;

verus! {

/// Global settings of a game project.
#[derive(Clone, Debug, Default, PartialEq)]
pub struct System {
    pub magic_number: i32,
    pub party_members: Vec<i32>,
    pub switches: Vec<String>,
    pub variables: Vec<String>,
    pub windowskin_name: String,
    pub title_name: String,
    pub start_map_id: i32,
    pub start_x: i32,
    pub start_y: i32,
}

/// An entry of the map index: where a map sits in the editor's map tree.
#[derive(Clone, Debug, Default, PartialEq)]
pub struct MapInfo {
    pub name: String,
    pub parent_id: i32,
    pub order: i32,
    pub expanded: bool,
    pub scroll_x: i32,
    pub scroll_y: i32,
}

/// The map index, keyed by map id.
pub type MapInfos = HashMap<i32, MapInfo>;

/// A tileset: the graphics a map is drawn with.
#[derive(Clone, Debug, Default, PartialEq)]
pub struct Tileset {
    pub id: i32,
    pub name: String,
    pub tileset_name: String,
    pub passages: Vec<i16>,
    pub priorities: Vec<i16>,
    pub terrain_tags: Vec<i16>,
}

/// One map of the project.
#[derive(Clone, Debug, Default, PartialEq)]
pub struct MapData {
    pub name: String,
    pub tileset_id: i32,
    pub width: usize,
    pub height: usize,
    pub autoplay_bgm: bool,
    pub encounter_step: i32,
    /// Tile ids, `width * height` per layer.
    pub data: Vec<i16>,
}

/// An event that can run from anywhere in the game.
#[derive(Clone, Debug, Default, PartialEq)]
pub struct CommonEvent {
    pub id: i32,
    pub name: String,
    pub trigger: i32,
    pub switch_id: i32,
}

/// One script of the game's script list.
#[derive(Clone, Debug, Default, PartialEq)]
pub struct Script {
    pub id: i32,
    pub name: String,
    pub script_text: String,
}

/// An item of the database.
#[derive(Clone, Debug, Default, PartialEq)]
pub struct Item {
    pub id: i32,
    pub name: String,
    pub icon_name: String,
    pub description: String,
    pub price: i32,
    pub consumable: bool,
}

} // verus!
