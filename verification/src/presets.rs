//! The preset registry: a fixed, compiled-in enumeration of configuration
//! preset names for the external tool. It has no state and performs no I/O.

use vstd::prelude::*;

verus! {

/// The fixed, ordered sequence of preset names.
pub open spec fn spec_presets() -> Seq<Seq<char>> {
    seq!["basic"@, "advanced"@, "strict"@]
}

/// Enumerates the known configuration presets.
///
/// Every call returns exactly `["basic", "advanced", "strict"]`, in that
/// order: the result is pinned to `spec_presets()`, so no call count or
/// interleaving can change it.
pub fn get_available_presets() -> (r: Vec<String>)
    ensures
        r.deep_view() == spec_presets(),
{
    let mut v: Vec<String> = Vec::new();
    v.push("basic".to_owned());
    v.push("advanced".to_owned());
    v.push("strict".to_owned());
    proof {
        assert(v.deep_view() =~~= spec_presets());
    }
    v
}

} // verus!
