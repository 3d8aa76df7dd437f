//! The mod declaration shape: name, activation flag, the mod's payload,
//! the declared cache invalidations, and the assets it injects.

use vstd::prelude::*;
use vstd::string::*;

use crate::manifest::InvalidateCacheEntry;
use crate::scenario::Scenario;

verus! {

broadcast use vstd::string::group_string_axioms;

/// The payload of a mod, by kind.
#[derive(Debug, Clone)]
pub enum ModType {
    /// A story mod: a compiled scenario record.
    Story(Scenario),
}

impl ModType {
    /// The name of the mod kind, as shown to the user.
    pub fn variant_name(&self) -> (r: &'static str)
        ensures
            r@ == "Story"@,
    {
        match self {
            ModType::Story(_) => "Story",
        }
    }
}

/// One mod: its name, whether the user enabled it, its payload, the cache
/// invalidations it declares, and the resource paths it overrides with
/// local files.
#[derive(Debug, Clone)]
pub struct ModData {
    /// Name of the mod.
    pub mod_name: String,
    /// Whether the user enabled the mod.
    pub enabled: bool,
    /// The mod's payload.
    pub mod_type: ModType,
    /// Game resource paths whose cache the mod forces to be refreshed.
    pub invalidated_assets: Vec<InvalidateCacheEntry>,
    /// Resource paths overridden by local files: pairs of the path to
    /// override and the local file served in its place.
    pub injected_assets: Vec<(String, String)>,
}

} // verus!
