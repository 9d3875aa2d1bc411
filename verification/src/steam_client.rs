//! The transport client: credential injection into outgoing queries, and
//! classification of HTTP outcomes into a typed error taxonomy.

use vstd::prelude::*;
use vstd::string::StringExecFns;

use crate::json::{json_parse, parse_json_text, JsonValue};

verus! {

/// An error returned by the upstream API layer.
#[derive(Debug)]
pub enum SteamError {
    /// The request failed: a transport-level failure, an unauthorized
    /// response, or any other non-success status. The text names the cause as
    /// far as the upstream distinguishes it.
    FailedRequest(String),
    /// The transport succeeded but the payload was absent or did not have the
    /// wire shape.
    NoData,
}

/// The mathematical value of a `SteamError`.
pub ghost enum SteamErrorV {
    FailedRequest(Seq<char>),
    NoData,
}

impl View for SteamError {
    type V = SteamErrorV;

    open spec fn view(&self) -> SteamErrorV {
        match self {
            SteamError::FailedRequest(m) => SteamErrorV::FailedRequest(m@),
            SteamError::NoData => SteamErrorV::NoData,
        }
    }
}

impl SteamError {
    /// The human-readable text of this error, for diagnostics.
    pub fn message(&self) -> (r: String)
        ensures
            match self {
                SteamError::FailedRequest(m) => r@ == "Error response from steam: "@ + m@,
                SteamError::NoData => r@
                    == "The data you requested is either private or empty"@,
            },
    {
        match self {
            SteamError::FailedRequest(m) => {
                let mut r = "Error response from steam: ".to_owned();
                r.append(m.as_str());
                r
            },
            SteamError::NoData => "The data you requested is either private or empty".to_owned(),
        }
    }
}

/// The failure text for a 401 status: the upstream does not distinguish an
/// invalid credential from a private resource, so neither does this text.
pub open spec fn unauthorized_text() -> Seq<char> {
    "Unauthorized. Either you have used an invalid API key, or the data you wanted to access is private"@
}

/// The failure text for any other non-success status.
pub open spec fn rejected_text() -> Seq<char> {
    "Steam could not process your request. Double-check your provided parameters (Steam ID, app ID, ...)."@
}

/// The failure text for a transport-level failure, before any status was
/// obtained. The underlying transport detail is deliberately discarded.
pub open spec fn transport_failure_text() -> Seq<char> {
    "Something went wrong with your request"@
}

/// What the transport observed for one request: either a status line together
/// with the response body, or a failure before any status was obtained.
#[derive(Debug)]
pub enum FetchOutcome {
    Response { status: u16, body: String },
    TransportFailure,
}

/// The mathematical value of a `FetchOutcome`.
pub ghost enum FetchOutcomeV {
    Response { status: u16, body: Seq<char> },
    TransportFailure,
}

impl View for FetchOutcome {
    type V = FetchOutcomeV;

    open spec fn view(&self) -> FetchOutcomeV {
        match self {
            FetchOutcome::Response { status, body } => FetchOutcomeV::Response {
                status: *status,
                body: body@,
            },
            FetchOutcome::TransportFailure => FetchOutcomeV::TransportFailure,
        }
    }
}

/// A `Result` of classification, field by field as a mathematical value.
pub open spec fn json_result_view(r: Result<JsonValue, SteamError>) -> Result<
    JsonValue,
    SteamErrorV,
> {
    match r {
        Ok(v) => Ok(v),
        Err(e) => Err(e@),
    }
}

/// How a transport outcome is classified: a 200 body is parsed as JSON and a
/// body that is no JSON document is `NoData`; a 401 is the
/// auth-or-private failure; every other status is the generic rejection; a
/// transport-level failure is the generic transport failure.
pub open spec fn spec_classify(o: FetchOutcomeV) -> Result<JsonValue, SteamErrorV> {
    match o {
        FetchOutcomeV::TransportFailure => Err(
            SteamErrorV::FailedRequest(transport_failure_text()),
        ),
        FetchOutcomeV::Response { status, body } => {
            if status == 200 {
                match json_parse(body) {
                    Some(doc) => Ok(doc),
                    None => Err(SteamErrorV::NoData),
                }
            } else if status == 401 {
                Err(SteamErrorV::FailedRequest(unauthorized_text()))
            } else {
                Err(SteamErrorV::FailedRequest(rejected_text()))
            }
        },
    }
}

/// The number of pairs in `q` whose name is `name`.
pub open spec fn count_named(q: Seq<(String, String)>, name: Seq<char>) -> nat
    decreases q.len(),
{
    if q.len() == 0 {
        0
    } else {
        (if q[0].0@ == name {
            1nat
        } else {
            0nat
        }) + count_named(q.drop_first(), name)
    }
}

/// The transport client: carries the upstream credential. The connection
/// handle that performs the network call is owned by the caller, which hands
/// the observed `FetchOutcome` back to this type for classification.
pub struct SteamClient {
    api_key: String,
}

impl SteamClient {
    /// The credential carried by this client.
    pub closed spec fn key(&self) -> Seq<char> {
        self.api_key@
    }

    /// Returns a new SteamClient instance carrying a developer API token.
    pub fn from(api_key: String) -> (r: SteamClient)
        ensures
            r.key() == api_key@,
    {
        SteamClient { api_key }
    }

    /// Returns a SteamClient without an API token. The empty credential is a
    /// valid, degraded value, not an error.
    pub fn new() -> (r: SteamClient)
        ensures
            r.key() == Seq::<char>::empty(),
    {
        SteamClient { api_key: String::new() }
    }

    /// Whether the carried credential is empty; callers may want to warn.
    pub fn has_empty_key(&self) -> (r: bool)
        ensures
            r == (self.key().len() == 0),
    {
        self.api_key.as_str().is_empty()
    }

    /// Builds the outgoing query: the credential comes first, under the name
    /// reserved for the API key, whatever its value; the caller-supplied
    /// parameters follow in the order supplied.
    pub fn build_query(&self, query: Vec<(String, String)>) -> (r: Vec<(String, String)>)
        ensures
            r@.len() == query@.len() + 1,
            r@[0].0@ == "key"@,
            r@[0].1@ == self.key(),
            forall|i: int| 0 <= i < query@.len() ==> r@[i + 1] == query@[i],
    {
        let mut r = query;
        r.insert(0, ("key".to_owned(), self.api_key.clone()));
        r
    }

    /// Classifies a transport outcome, exactly as `spec_classify` states.
    pub fn classify_response(&self, outcome: FetchOutcome) -> (r: Result<JsonValue, SteamError>)
        ensures
            json_result_view(r) == spec_classify(outcome@),
    {
        match outcome {
            FetchOutcome::TransportFailure => Err(
                SteamError::FailedRequest("Something went wrong with your request".to_owned()),
            ),
            FetchOutcome::Response { status, body } => {
                if status == 200 {
                    match parse_json_text(body.as_str()) {
                        Some(doc) => Ok(doc),
                        None => Err(SteamError::NoData),
                    }
                } else if status == 401 {
                    Err(
                        SteamError::FailedRequest(
                            "Unauthorized. Either you have used an invalid API key, or the data you wanted to access is private".to_owned(),
                        ),
                    )
                } else {
                    Err(
                        SteamError::FailedRequest(
                            "Steam could not process your request. Double-check your provided parameters (Steam ID, app ID, ...).".to_owned(),
                        ),
                    )
                }
            },
        }
    }
}

impl Default for SteamClient {
    /// Like `new`: a client without an API token.
    fn default() -> (r: SteamClient)
        ensures
            r.key() == Seq::<char>::empty(),
    {
        SteamClient { api_key: String::new() }
    }
}

/// The outgoing query of `build_query` carries the credential parameter
/// exactly once, whatever the credential value (the empty one included),
/// provided the caller's own parameters do not use the reserved name.
pub proof fn lemma_credential_exactly_once(r: Seq<(String, String)>, query: Seq<(String, String)>)
    requires
        r.len() == query.len() + 1,
        r[0].0@ == "key"@,
        forall|i: int| 0 <= i < query.len() ==> r[i + 1] == query[i],
        count_named(query, "key"@) == 0,
    ensures
        count_named(r, "key"@) == 1,
{
    assert(r.drop_first() =~= query);
}

} // verus!
