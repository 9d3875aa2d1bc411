use steam_dilemma::app_model;
use steam_dilemma::client_state::{
    get_can_send_request_status, update_client_state_counter, update_client_state_customer,
    update_request_state_error, update_request_state_success, ClientState, RequestState,
};
use steam_dilemma::library::{
    Consultant, CounterResponse, Customer, Game, NewCustomerResponse, Room, SteamGameLibrary,
};
use steam_dilemma::server_model::{customer_from_library, AppModel};
use steam_dilemma::steam_client::SteamError;
use steam_dilemma::steam_database;
use steam_dilemma::steam_user_library::{SteamGame, SteamUserLibrary};

#[test]
fn server_model_starts_empty_and_counts_up() {
    let mut model = AppModel::new(SteamGameLibrary::new("token".to_string()));
    assert!(model.consultants.is_empty());
    assert!(model.customers.is_empty());
    assert!(model.rooms.is_empty());
    assert_eq!(model.counter, 0);
    assert_eq!(model.game_library.api_key, "token");
    assert_eq!(model.increment_counter(), 1);
    assert_eq!(model.increment_counter(), 2);
    assert_eq!(model.counter, 2);
}

#[test]
fn library_credential_is_injected() {
    let lib = SteamGameLibrary::new("example-token".to_string());
    assert_eq!(lib.api_key, "example-token");
}

#[test]
fn client_database_carries_the_placeholder_credential() {
    let lib = steam_database::SteamGameLibrary::new();
    assert_eq!(lib.api_key, "a");
}

#[test]
fn client_model_holds_its_parts() {
    let model = app_model::AppModel {
        customers: Vec::new(),
        consultant: Consultant { name: "c".to_string() },
        game_library: steam_database::SteamGameLibrary::new(),
    };
    assert!(model.customers.is_empty());
    assert_eq!(model.consultant.name, "c");
    assert_eq!(model.game_library.api_key, "a");
}

#[test]
fn customer_from_successful_library_carries_mapped_titles() {
    let library = SteamUserLibrary {
        game_count: 2,
        games: vec![
            SteamGame {
                app_id: 570,
                name: "Dota 2".to_string(),
                total_playtime: 1,
                img_icon_url: "x".to_string(),
            },
            SteamGame {
                app_id: 440,
                name: "Team Fortress 2".to_string(),
                total_playtime: 2,
                img_icon_url: "y".to_string(),
            },
        ],
    };
    let customer = customer_from_library(Ok(library));
    assert_eq!(customer.steam_name, "ass");
    assert_eq!(customer.steam_id, Some(123));
    assert_eq!(customer.games.len(), 2);
    assert_eq!(customer.games[0].id, 0);
    assert_eq!(customer.games[0].app_id, 570);
    assert_eq!(customer.games[0].name, "Dota 2");
    assert_eq!(customer.games[1].app_id, 440);
}

#[test]
fn customer_from_failed_library_has_no_titles() {
    let customer = customer_from_library(Err(SteamError::NoData));
    assert_eq!(customer.steam_name, "ass");
    assert_eq!(customer.steam_id, Some(123));
    assert!(customer.games.is_empty());

    let customer = customer_from_library(Err(SteamError::FailedRequest("down".to_string())));
    assert!(customer.games.is_empty());
}

#[test]
fn client_state_defaults_to_nothing_loaded() {
    let state = ClientState::default();
    assert!(state.current_room.is_none());
    assert!(state.server_counter.is_none());
    assert_eq!(state.steam_id_str, "");
    assert!(state.current_customer.is_none());
}

#[test]
fn request_state_transitions_record_the_outcome() {
    let mut state = RequestState::Idle;
    assert!(get_can_send_request_status(&state));
    state = RequestState::Loading;
    assert!(!get_can_send_request_status(&state));
    update_request_state_success(&mut state, 41);
    assert!(matches!(state, RequestState::Success(41)));
    assert!(get_can_send_request_status(&state));
    update_request_state_error(&mut state, "boom".to_string());
    match &state {
        RequestState::Error(msg) => assert_eq!(msg, "boom"),
        other => panic!("expected Error, got {:?}", other),
    }
    assert!(get_can_send_request_status(&state));
}

#[test]
fn client_state_updates_touch_only_their_field() {
    let mut state = ClientState {
        current_room: Some(Room { id: 3, customers: Vec::new(), consultants: Vec::new() }),
        server_counter: None,
        steam_id_str: "76561197960287930".to_string(),
        current_customer: None,
    };
    update_client_state_counter(&mut state, 7);
    assert_eq!(state.server_counter, Some(7));
    assert_eq!(state.steam_id_str, "76561197960287930");
    assert_eq!(state.current_room.as_ref().map(|r| r.id), Some(3));

    let customer = Customer {
        steam_name: "n".to_string(),
        steam_id: None,
        games: vec![Game { id: 0, app_id: 1, name: "g".to_string() }],
    };
    update_client_state_customer(&mut state, customer);
    let held = state.current_customer.as_ref().expect("customer should be stored");
    assert_eq!(held.steam_name, "n");
    assert_eq!(held.games.len(), 1);
    assert_eq!(state.server_counter, Some(7));
}

#[test]
fn transfer_structs_round_trip_their_fields() {
    let counter = CounterResponse { counter_value: 9 };
    assert_eq!(counter.counter_value, 9);
    let response = NewCustomerResponse {
        customer: Customer {
            steam_name: "s".to_string(),
            steam_id: Some(5),
            games: Vec::new(),
        },
    };
    assert_eq!(response.customer.steam_id, Some(5));
    let room = Room {
        id: 8,
        customers: vec![response.customer.clone()],
        consultants: vec![Consultant { name: "adviser".to_string() }],
    };
    assert_eq!(room.id, 8);
    assert_eq!(room.customers.len(), 1);
    assert_eq!(room.consultants[0].name, "adviser");
}
