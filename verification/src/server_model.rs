//! The server-side application model, and the translation of a fetched
//! library into the customer record the server hands back.

use std::collections::HashMap;
use vstd::prelude::*;

use crate::library::{Consultant, Customer, Game, Room, SteamGameLibrary};
use crate::steam_client::SteamError;
use crate::steam_user_library::SteamUserLibrary;

verus! {

/// The server's application state: registered people, the game-library
/// credential, the rooms by identifier, and a demo counter.
#[derive(Debug, Clone)]
pub struct AppModel {
    pub consultants: Vec<Consultant>,
    pub customers: Vec<Customer>,
    pub game_library: SteamGameLibrary,
    pub rooms: HashMap<u64, Room>,
    pub counter: u64,
}

impl AppModel {
    /// A fresh model: empty collections and a zero counter. The game-library
    /// credential is injected by the caller rather than read from ambient
    /// state.
    pub fn new(game_library: SteamGameLibrary) -> (r: AppModel)
        ensures
            r.consultants@ == Seq::<Consultant>::empty(),
            r.customers@ == Seq::<Customer>::empty(),
            r.game_library == game_library,
            r.rooms@ == Map::<u64, Room>::empty(),
            r.counter == 0,
    {
        AppModel {
            consultants: Vec::new(),
            customers: Vec::new(),
            game_library,
            rooms: HashMap::new(),
            counter: 0,
        }
    }

    /// Advances the demo counter by one and returns the new value.
    pub fn increment_counter(&mut self) -> (r: u64)
        requires
            old(self).counter < u64::MAX,
        ensures
            final(self).counter == old(self).counter + 1,
            r == final(self).counter,
            final(self).consultants == old(self).consultants,
            final(self).customers == old(self).customers,
            final(self).game_library == old(self).game_library,
            final(self).rooms == old(self).rooms,
    {
        self.counter = self.counter + 1;
        self.counter
    }
}

/// The customer record the server hands back for one library fetch: the demo
/// display name and identifier, carrying the translated titles on success and
/// an empty list on failure — the error is deliberately not surfaced to the
/// end user.
pub fn customer_from_library(outcome: Result<SteamUserLibrary, SteamError>) -> (c: Customer)
    ensures
        c.steam_name@ == "ass"@,
        c.steam_id == Some(123u64),
        match outcome {
            Ok(library) => {
                &&& c.games@.len() == library.games@.len()
                &&& forall|i: int|
                    0 <= i < library.games@.len() ==> {
                        &&& (#[trigger] c.games@[i]).id == 0
                        &&& c.games@[i].app_id == library.games@[i].app_id
                        &&& c.games@[i].name@ == library.games@[i].name@
                    }
            },
            Err(_) => c.games@.len() == 0,
        },
{
    let mut games: Vec<Game> = Vec::new();
    match &outcome {
        Ok(library) => {
            let mut i: usize = 0;
            while i < library.games.len()
                invariant
                    0 <= i <= library.games@.len(),
                    games@.len() == i,
                    forall|j: int|
                        0 <= j < i ==> {
                            &&& (#[trigger] games@[j]).id == 0
                            &&& games@[j].app_id == library.games@[j].app_id
                            &&& games@[j].name@ == library.games@[j].name@
                        },
                decreases library.games@.len() - i,
            {
                let raw = &library.games[i];
                games.push(Game { id: 0, app_id: raw.app_id, name: raw.name.clone() });
                i += 1;
            }
        },
        Err(_) => {},
    }
    Customer { steam_name: "ass".to_owned(), steam_id: Some(123), games }
}

} // verus!
