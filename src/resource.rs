//! What the store reads and writes, and how it reports failures.
use crate::names::{map_file_name, map_name_of};
use crate::records::{CommonEvent, Item, MapInfos, Script, System, Tileset};
use vstd::prelude::*;

verus! {

/// A named resource of project storage.
#[derive(Clone, Copy, Debug, PartialEq, Eq, Structural)]
pub enum Resource {
    System,
    MapInfos,
    Tilesets,
    CommonEvents,
    Items,
    Scripts,
    MapFile(i32),
}

/// The storage name of a resource.
pub open spec fn resource_name(r: Resource) -> Seq<char> {
    match r {
        Resource::System => "System.ron"@,
        Resource::MapInfos => "MapInfos.ron"@,
        Resource::Tilesets => "Tilesets.ron"@,
        Resource::CommonEvents => "CommonEvents.ron"@,
        Resource::Items => "Items.ron"@,
        Resource::Scripts => "Scripts.ron"@,
        Resource::MapFile(id) => map_name_of(id),
    }
}

impl Resource {
    /// The name under which this resource is stored.
    pub fn file_name(&self) -> (r: String)
        ensures
            r@ == resource_name(*self),
    {
        match self {
            Resource::System => String::from_str("System.ron"),
            Resource::MapInfos => String::from_str("MapInfos.ron"),
            Resource::Tilesets => String::from_str("Tilesets.ron"),
            Resource::CommonEvents => String::from_str("CommonEvents.ron"),
            Resource::Items => String::from_str("Items.ron"),
            Resource::Scripts => String::from_str("Scripts.ron"),
            Resource::MapFile(id) => map_file_name(*id),
        }
    }
}

/// One read of a project load, in the order they are made. The script list
/// is read under its extended name first and under its plain name only if
/// that fails.
#[derive(Clone, Copy, Debug, PartialEq, Eq, Structural)]
pub enum LoadStage {
    System,
    MapInfos,
    Tilesets,
    CommonEvents,
    Items,
    ExtendedScripts,
    Scripts,
}

/// The resource that a load stage fills.
pub open spec fn stage_resource(s: LoadStage) -> Resource {
    match s {
        LoadStage::System => Resource::System,
        LoadStage::MapInfos => Resource::MapInfos,
        LoadStage::Tilesets => Resource::Tilesets,
        LoadStage::CommonEvents => Resource::CommonEvents,
        LoadStage::Items => Resource::Items,
        LoadStage::ExtendedScripts => Resource::Scripts,
        LoadStage::Scripts => Resource::Scripts,
    }
}

/// The storage name that a load stage reads.
pub open spec fn stage_name(s: LoadStage) -> Seq<char> {
    match s {
        LoadStage::ExtendedScripts => "xScripts.ron"@,
        _ => resource_name(stage_resource(s)),
    }
}

/// The stage read after `s` succeeds; `None` when a success there ends the load.
pub open spec fn stage_after(s: LoadStage) -> Option<LoadStage> {
    match s {
        LoadStage::System => Some(LoadStage::MapInfos),
        LoadStage::MapInfos => Some(LoadStage::Tilesets),
        LoadStage::Tilesets => Some(LoadStage::CommonEvents),
        LoadStage::CommonEvents => Some(LoadStage::Items),
        LoadStage::Items => Some(LoadStage::ExtendedScripts),
        LoadStage::ExtendedScripts => None,
        LoadStage::Scripts => None,
    }
}

/// A record that a load stage has read and decoded.
#[derive(Clone, Debug, PartialEq)]
pub enum Loaded {
    System(System),
    MapInfos(MapInfos),
    Tilesets(Vec<Tileset>),
    CommonEvents(Vec<CommonEvent>),
    Items(Vec<Item>),
    Scripts(Vec<Script>),
}

/// Whether `loaded` is the kind of record that stage `s` reads.
pub open spec fn fits(s: LoadStage, loaded: Loaded) -> bool {
    match s {
        LoadStage::System => loaded is System,
        LoadStage::MapInfos => loaded is MapInfos,
        LoadStage::Tilesets => loaded is Tilesets,
        LoadStage::CommonEvents => loaded is CommonEvents,
        LoadStage::Items => loaded is Items,
        LoadStage::ExtendedScripts => loaded is Scripts,
        LoadStage::Scripts => loaded is Scripts,
    }
}

impl LoadStage {
    /// The name under which this stage reads.
    pub fn file_name(&self) -> (r: String)
        ensures
            r@ == stage_name(*self),
    {
        match self {
            LoadStage::ExtendedScripts => String::from_str("xScripts.ron"),
            _ => self.resource().file_name(),
        }
    }

    /// The resource that this stage fills.
    pub fn resource(&self) -> (r: Resource)
        ensures
            r == stage_resource(*self),
    {
        match self {
            LoadStage::System => Resource::System,
            LoadStage::MapInfos => Resource::MapInfos,
            LoadStage::Tilesets => Resource::Tilesets,
            LoadStage::CommonEvents => Resource::CommonEvents,
            LoadStage::Items => Resource::Items,
            LoadStage::ExtendedScripts => Resource::Scripts,
            LoadStage::Scripts => Resource::Scripts,
        }
    }

    /// The stage that follows a successful read of this one.
    pub fn next(&self) -> (r: Option<LoadStage>)
        ensures
            r == stage_after(*self),
    {
        match self {
            LoadStage::System => Some(LoadStage::MapInfos),
            LoadStage::MapInfos => Some(LoadStage::Tilesets),
            LoadStage::Tilesets => Some(LoadStage::CommonEvents),
            LoadStage::CommonEvents => Some(LoadStage::Items),
            LoadStage::Items => Some(LoadStage::ExtendedScripts),
            LoadStage::ExtendedScripts => None,
            LoadStage::Scripts => None,
        }
    }

    /// Whether `loaded` is the kind of record that this stage reads.
    pub fn accepts(&self, loaded: &Loaded) -> (r: bool)
        ensures
            r == fits(*self, *loaded),
    {
        match self {
            LoadStage::System => matches!(loaded, Loaded::System(_)),
            LoadStage::MapInfos => matches!(loaded, Loaded::MapInfos(_)),
            LoadStage::Tilesets => matches!(loaded, Loaded::Tilesets(_)),
            LoadStage::CommonEvents => matches!(loaded, Loaded::CommonEvents(_)),
            LoadStage::Items => matches!(loaded, Loaded::Items(_)),
            LoadStage::ExtendedScripts => matches!(loaded, Loaded::Scripts(_)),
            LoadStage::Scripts => matches!(loaded, Loaded::Scripts(_)),
        }
    }
}

/// A failed read: which resource, and what storage or decoding reported.
#[derive(Clone, Debug, PartialEq)]
pub struct LoadError {
    pub resource: Resource,
    pub cause: String,
}

/// A failed write: which resource, and what storage or encoding reported.
#[derive(Clone, Debug, PartialEq)]
pub struct SaveError {
    pub resource: Resource,
    pub cause: String,
}

} // verus!
