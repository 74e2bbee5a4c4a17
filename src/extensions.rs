//! Whether the extension runtime is active on this host, and which
//! extensions it has loaded.

use vstd::prelude::*;

verus! {

/// One loaded extension.
#[derive(Debug, Clone)]
pub struct ModInfo {
    pub name: String,
}

/// State of the extension runtime.
#[derive(Debug, Clone)]
pub struct BepInExInfo {
    pub enabled: bool,
    pub mods: Vec<ModInfo>,
}

impl BepInExInfo {
    /// A disabled runtime lists no extensions.
    pub open spec fn wf(&self) -> bool {
        !self.enabled ==> self.mods@.len() == 0
    }

    /// The runtime is not active.
    pub fn disabled() -> (r: BepInExInfo)
        ensures
            !r.enabled,
            r.mods@.len() == 0,
            r.wf(),
    {
        BepInExInfo { enabled: false, mods: Vec::new() }
    }

    /// What a probe of the host found: the extensions it listed count only
    /// where the runtime is active.
    pub fn from_probe(enabled: bool, mods: Vec<ModInfo>) -> (r: BepInExInfo)
        ensures
            r.enabled == enabled,
            enabled ==> r.mods@ == mods@,
            r.wf(),
    {
        if enabled {
            BepInExInfo { enabled: true, mods }
        } else {
            BepInExInfo::disabled()
        }
    }
}

} // verus!
