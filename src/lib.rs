//! An in-memory cache of the records of an open game project.
//!
//! Singleton records are loaded together when a project opens, maps one by one
//! on first use, and a save writes the cached maps, the tileset list and the
//! map index back. Storage itself is driven by the caller: the store says what
//! to read or write next and takes back what came of it.
pub mod laws;
pub mod names;
pub mod records;
pub mod resource;
pub mod save;
pub mod store;
pub mod windows;
