//! The client-side handle to the game library.

use vstd::prelude::*;

verus! {

/// Carries the client's placeholder credential for the game library.
#[derive(Debug, Clone)]
pub struct SteamGameLibrary {
    pub api_key: String,
}

impl SteamGameLibrary {
    pub fn new() -> (r: SteamGameLibrary)
        ensures
            r.api_key@ == "a"@,
    {
        SteamGameLibrary { api_key: "a".to_owned() }
    }
}

} // verus!
