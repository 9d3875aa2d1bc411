//! Client-side request and view state, and the transitions the request
//! handlers apply to it.

use vstd::prelude::*;

use crate::library::{Customer, Room};

verus! {

/// The lifecycle of one in-flight request to the server.
#[derive(Debug)]
pub enum RequestState {
    Idle,
    Loading,
    Success(u64),
    Error(String),
}

/// The client state shared between the view and the request handlers.
#[derive(Debug, Clone)]
pub struct ClientState {
    pub current_room: Option<Room>,
    pub server_counter: Option<u64>,
    pub steam_id_str: String,
    pub current_customer: Option<Customer>,
}

impl Default for ClientState {
    /// No room, no counter yet, an empty identifier and no customer.
    fn default() -> (r: ClientState)
        ensures
            r.current_room is None,
            r.server_counter is None,
            r.steam_id_str@ == Seq::<char>::empty(),
            r.current_customer is None,
    {
        ClientState {
            current_room: None,
            server_counter: None,
            steam_id_str: String::new(),
            current_customer: None,
        }
    }
}

/// Records a completed request with the counter value it returned.
pub fn update_request_state_success(request_state: &mut RequestState, counter_value: u64)
    ensures
        *final(request_state) == RequestState::Success(counter_value),
{
    *request_state = RequestState::Success(counter_value);
}

/// Records a failed request with its error message.
pub fn update_request_state_error(request_state: &mut RequestState, error_message: String)
    ensures
        *final(request_state) == RequestState::Error(error_message),
{
    *request_state = RequestState::Error(error_message);
}

/// Stores the counter value the server reported.
pub fn update_client_state_counter(shared_client_state: &mut ClientState, counter_value: u64)
    ensures
        final(shared_client_state).server_counter == Some(counter_value),
        final(shared_client_state).current_room == old(shared_client_state).current_room,
        final(shared_client_state).steam_id_str == old(shared_client_state).steam_id_str,
        final(shared_client_state).current_customer == old(shared_client_state).current_customer,
{
    shared_client_state.server_counter = Some(counter_value);
}

/// Stores the customer record the server reported.
pub fn update_client_state_customer(shared_client_state: &mut ClientState, customer: Customer)
    ensures
        final(shared_client_state).current_customer == Some(customer),
        final(shared_client_state).current_room == old(shared_client_state).current_room,
        final(shared_client_state).server_counter == old(shared_client_state).server_counter,
        final(shared_client_state).steam_id_str == old(shared_client_state).steam_id_str,
{
    shared_client_state.current_customer = Some(customer);
}

/// A new request may be sent whenever none is in flight.
pub fn get_can_send_request_status(request_state: &RequestState) -> (r: bool)
    ensures
        r == !(request_state is Loading),
{
    match request_state {
        RequestState::Loading => false,
        _ => true,
    }
}

} // verus!
