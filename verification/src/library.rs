//! The data-transfer structures shared between the client and the server.

use vstd::prelude::*;

verus! {

/// A consumer-facing aggregate: a display name, an optional numeric
/// identifier, and the customer's owned titles after translation.
#[derive(Debug, Clone)]
pub struct Customer {
    pub steam_name: String,
    pub steam_id: Option<u64>,
    pub games: Vec<Game>,
}

/// A domain title record. `id` is an internal placeholder (the mapper does
/// not assign stable internal identifiers); `app_id` is the upstream
/// application identifier, the only meaningful identity.
#[derive(Debug, Clone)]
pub struct Game {
    pub id: u64,
    pub app_id: u64,
    pub name: String,
}

#[derive(Debug, Clone)]
pub struct Consultant {
    pub name: String,
}

/// Holds the upstream API credential. The credential is injected by the
/// caller rather than read from the process environment, so the library
/// itself stays free of ambient state.
#[derive(Debug, Clone)]
pub struct SteamGameLibrary {
    pub api_key: String,
}

impl SteamGameLibrary {
    pub fn new(api_key: String) -> (r: SteamGameLibrary)
        ensures
            r.api_key == api_key,
    {
        SteamGameLibrary { api_key }
    }
}

/// Response body for the counter route.
#[derive(Debug, Clone)]
pub struct CounterResponse {
    pub counter_value: u64,
}

/// Response body for the customer-library route.
#[derive(Debug, Clone)]
pub struct NewCustomerResponse {
    pub customer: Customer,
}

/// A room groups customers with consultants.
#[derive(Debug, Clone)]
pub struct Room {
    pub id: u64,
    pub customers: Vec<Customer>,
    pub consultants: Vec<Consultant>,
}

} // verus!
