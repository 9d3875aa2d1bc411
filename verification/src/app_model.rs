//! The client-side application model.

use vstd::prelude::*;

use crate::library::{Consultant, Customer};
use crate::steam_database::SteamGameLibrary;

verus! {

/// The client's application state.
#[derive(Debug)]
pub struct AppModel {
    pub customers: Vec<Customer>,
    pub consultant: Consultant,
    pub game_library: SteamGameLibrary,
}

} // verus!
