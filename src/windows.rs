//! Windows that show the GUI toolkit's own settings, inspection and memory
//! panels. Their titles are fixed; drawing them is the toolkit's work.
use vstd::prelude::*;

verus! {

/// The window of the toolkit's settings.
pub struct EguiSettings {}

impl EguiSettings {
    pub fn new() -> (r: Self)
        ensures
            r == (EguiSettings {}),
    {
        Self {}
    }

    /// The window's title.
    pub fn name(&self) -> (r: String)
        ensures
            r@ == "Egui Settings"@,
    {
        String::from_str("Egui Settings")
    }
}

/// The window of the toolkit's inspection panel.
pub struct EguiInspection {}

impl EguiInspection {
    pub fn new() -> (r: Self)
        ensures
            r == (EguiInspection {}),
    {
        Self {}
    }

    /// The window's title.
    pub fn name(&self) -> (r: String)
        ensures
            r@ == "Egui Inspection"@,
    {
        String::from_str("Egui Inspection")
    }
}

/// The window of the toolkit's memory panel.
pub struct EguiMemory {}

impl EguiMemory {
    pub fn new() -> (r: Self)
        ensures
            r == (EguiMemory {}),
    {
        Self {}
    }

    /// The window's title.
    pub fn name(&self) -> (r: String)
        ensures
            r@ == "Egui Memory"@,
    {
        String::from_str("Egui Memory")
    }
}

} // verus!
