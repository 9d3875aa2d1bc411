use steam_dilemma::json::JsonValue;
use steam_dilemma::steam_client::{FetchOutcome, SteamClient, SteamError};

const UNAUTHORIZED_MSG: &str = "Unauthorized. Either you have used an invalid API key, or the data you wanted to access is private";
const REJECTED_MSG: &str = "Steam could not process your request. Double-check your provided parameters (Steam ID, app ID, ...).";
const TRANSPORT_MSG: &str = "Something went wrong with your request";

fn pairs(v: &[(&str, &str)]) -> Vec<(String, String)> {
    v.iter().map(|(a, b)| (a.to_string(), b.to_string())).collect()
}

#[test]
fn credential_is_first_and_exactly_once() {
    let client = SteamClient::from("token-123".to_string());
    let q = client.build_query(pairs(&[("steamid", "42"), ("flag", "1")]));
    assert_eq!(q.len(), 3);
    assert_eq!(q[0], ("key".to_string(), "token-123".to_string()));
    assert_eq!(q[1], ("steamid".to_string(), "42".to_string()));
    assert_eq!(q[2], ("flag".to_string(), "1".to_string()));
    let key_count = q.iter().filter(|p| p.0 == "key").count();
    assert_eq!(key_count, 1);
}

#[test]
fn empty_credential_is_still_included_exactly_once() {
    let client = SteamClient::new();
    assert!(client.has_empty_key());
    let q = client.build_query(pairs(&[("steamid", "42")]));
    assert_eq!(q.len(), 2);
    assert_eq!(q[0], ("key".to_string(), String::new()));
    let key_count = q.iter().filter(|p| p.0 == "key").count();
    assert_eq!(key_count, 1);
}

#[test]
fn default_client_has_empty_credential() {
    let client = SteamClient::default();
    assert!(client.has_empty_key());
    let q = client.build_query(Vec::new());
    assert_eq!(q, vec![("key".to_string(), String::new())]);
}

#[test]
fn build_query_preserves_caller_order() {
    let client = SteamClient::from("k".to_string());
    let q = client.build_query(pairs(&[("b", "2"), ("a", "1"), ("c", "3")]));
    let names: Vec<&str> = q.iter().map(|p| p.0.as_str()).collect();
    assert_eq!(names, vec!["key", "b", "a", "c"]);
}

#[test]
fn status_401_is_the_auth_or_private_failure() {
    let client = SteamClient::from("k".to_string());
    let r = client.classify_response(FetchOutcome::Response {
        status: 401,
        body: "{\"response\":{}}".to_string(),
    });
    match r {
        Err(SteamError::FailedRequest(msg)) => assert_eq!(msg, UNAUTHORIZED_MSG),
        other => panic!("expected FailedRequest, got {:?}", other),
    }
}

#[test]
fn other_statuses_are_the_generic_rejection_regardless_of_body() {
    let client = SteamClient::from("k".to_string());
    for (status, body) in [
        (400u16, "{\"response\":{\"game_count\":0,\"games\":[]}}"),
        (403, "forbidden"),
        (404, ""),
        (500, "{\"oops\":true}"),
        (503, "retry later"),
    ] {
        let r = client.classify_response(FetchOutcome::Response {
            status,
            body: body.to_string(),
        });
        match r {
            Err(SteamError::FailedRequest(msg)) => assert_eq!(msg, REJECTED_MSG),
            other => panic!("status {}: expected FailedRequest, got {:?}", status, other),
        }
    }
}

#[test]
fn transport_failure_is_the_generic_transport_message() {
    let client = SteamClient::from("k".to_string());
    let r = client.classify_response(FetchOutcome::TransportFailure);
    match r {
        Err(SteamError::FailedRequest(msg)) => assert_eq!(msg, TRANSPORT_MSG),
        other => panic!("expected FailedRequest, got {:?}", other),
    }
}

#[test]
fn status_200_with_json_body_yields_the_parsed_document() {
    let client = SteamClient::from("k".to_string());
    let r = client.classify_response(FetchOutcome::Response {
        status: 200,
        body: "{\"response\":null}".to_string(),
    });
    match r {
        Ok(JsonValue::Object(fields)) => {
            assert_eq!(fields.len(), 1);
            assert_eq!(fields[0].0, "response");
            assert!(matches!(fields[0].1, JsonValue::Null));
        }
        other => panic!("expected an object document, got {:?}", other),
    }
}

#[test]
fn status_200_with_unparseable_body_is_no_data_not_a_panic() {
    let client = SteamClient::from("k".to_string());
    let r = client.classify_response(FetchOutcome::Response {
        status: 200,
        body: "not json at all {{{".to_string(),
    });
    assert!(matches!(r, Err(SteamError::NoData)));
}

#[test]
fn errors_carry_their_diagnostic_text() {
    let e = SteamError::FailedRequest("boom".to_string());
    assert_eq!(e.message(), "Error response from steam: boom");
    assert_eq!(
        SteamError::NoData.message(),
        "The data you requested is either private or empty"
    );
}
