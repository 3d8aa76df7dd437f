//! The merge rule for the injection map: resource paths declared by mods
//! are added to the map of served overrides, without disturbing entries
//! that already exist.

use vstd::prelude::*;
use vstd::string::*;

use crate::strutil::str_eq;

verus! {

/// Whether the injection map holds an entry for the given resource path.
pub open spec fn spec_has_injection(map: Seq<(String, String, bool)>, key: Seq<char>) -> bool {
    exists|i: int| 0 <= i < map.len() && (#[trigger] map[i]).0@ == key
}

/// The injection map after merging the declared assets, in order: each
/// declared pair whose resource path is not yet mapped is appended,
/// enabled; a pair whose path is already mapped is skipped.
pub open spec fn spec_merged(
    map: Seq<(String, String, bool)>,
    injected: Seq<(String, String)>,
    k: int,
) -> Seq<(String, String, bool)>
    decreases k,
{
    if k <= 0 {
        map
    } else {
        let prev = spec_merged(map, injected, k - 1);
        if spec_has_injection(prev, injected[k - 1].0@) {
            prev
        } else {
            prev.push((injected[k - 1].0, injected[k - 1].1, true))
        }
    }
}

/// Decides whether the map holds an entry for the given resource path.
fn has_injection(map: &Vec<(String, String, bool)>, key: &str) -> (r: bool)
    ensures
        r == spec_has_injection(map@, key@),
{
    let mut i: usize = 0;
    while i < map.len()
        invariant
            i <= map@.len(),
            forall|j: int| 0 <= j < i ==> (#[trigger] map@[j]).0@ != key@,
        decreases map@.len() - i,
    {
        if str_eq(map[i].0.as_str(), key) {
            return true;
        }
        i += 1;
    }
    false
}

/// Merges the assets a mod declares into the injection map: each declared
/// resource path not yet mapped is appended, enabled; the others are
/// skipped, keeping whatever the map already serves for them.
pub fn merge_injections(map: &mut Vec<(String, String, bool)>, injected: &Vec<(String, String)>)
    ensures
        final(map)@ == spec_merged(old(map)@, injected@, injected@.len() as int),
{
    let mut k: usize = 0;
    while k < injected.len()
        invariant
            k <= injected@.len(),
            map@ == spec_merged(old(map)@, injected@, k as int),
        decreases injected@.len() - k,
    {
        if !has_injection(map, injected[k].0.as_str()) {
            map.push((injected[k].0.clone(), injected[k].1.clone(), true));
        }
        k += 1;
    }
}

/// Builds the request prefix of the asset-bundle domain:
/// `<data version>/<asset hash>/<platform>`.
pub fn assetbundle_prefix(data_version: &str, asset_hash: &str, platform: &str) -> (r: String)
    ensures
        r@ == data_version@ + "/"@ + asset_hash@ + "/"@ + platform@,
{
    let mut r = String::from_str(data_version);
    r.append("/");
    r.append(asset_hash);
    r.append("/");
    r.append(platform);
    r
}

/// Builds the request path of the asset-bundle-info manifest:
/// `/api/version/<asset version>/os/<platform>`.
pub fn abinfo_request_path(asset_version: &str, platform: &str) -> (r: String)
    ensures
        r@ == "/api/version/"@ + asset_version@ + "/os/"@ + platform@,
{
    let mut r = String::from_str("/api/version/");
    r.append(asset_version);
    r.append("/os/");
    r.append(platform);
    r
}

} // verus!
