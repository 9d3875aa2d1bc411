//! The owned-games resource: the wire schema of the upstream payload, its
//! translation into domain records, and the per-resource adapter on the
//! transport client.

use vstd::prelude::*;
use vstd::string::StringExecFns;

use crate::decimal::{u64_digits, u64_to_string};
use crate::json::{lookup_field, spec_lookup, JsonValue};
use crate::library::Game;
use crate::steam_client::{
    spec_classify, FetchOutcome, FetchOutcomeV, SteamClient, SteamError, SteamErrorV,
};

verus! {

/// Wire helper: the upstream nests the real payload one level down, under a
/// key it may omit entirely (a private or empty profile).
#[derive(Debug)]
pub struct OwnedGamesResponse {
    pub response: Option<SteamUserLibrary>,
}

/// A user's owned-games library: a count and the title records.
#[derive(Debug)]
pub struct SteamUserLibrary {
    pub game_count: u32,
    pub games: Vec<SteamGame>,
}

/// One title record as the upstream reports it.
#[derive(Debug)]
pub struct SteamGame {
    pub app_id: u64,
    pub name: String,
    pub total_playtime: u64,
    pub img_icon_url: String,
}

/// The mathematical value of a `SteamGame`.
pub ghost struct SteamGameV {
    pub app_id: u64,
    pub name: Seq<char>,
    pub total_playtime: u64,
    pub img_icon_url: Seq<char>,
}

impl View for SteamGame {
    type V = SteamGameV;

    open spec fn view(&self) -> SteamGameV {
        SteamGameV {
            app_id: self.app_id,
            name: self.name@,
            total_playtime: self.total_playtime,
            img_icon_url: self.img_icon_url@,
        }
    }
}

impl SteamGame {
    /// The one-line description of this title, for diagnostics.
    pub fn describe(&self) -> (r: String)
        ensures
            r@ == "Game: id "@ + u64_digits(self.app_id as nat) + ", name: "@ + self.name@
                + ", total time played: "@ + u64_digits(self.total_playtime as nat),
    {
        let mut r = "Game: id ".to_owned();
        r.append(u64_to_string(self.app_id).as_str());
        r.append(", name: ");
        r.append(self.name.as_str());
        r.append(", total time played: ");
        r.append(u64_to_string(self.total_playtime).as_str());
        r
    }
}

/// Two title records are the same title exactly when their application
/// identifiers match; name and playtime are not part of identity.
impl PartialEq for SteamGame {
    fn eq(&self, other: &SteamGame) -> (r: bool) {
        self.app_id == other.app_id
    }
}

impl vstd::std_specs::cmp::PartialEqSpecImpl for SteamGame {
    open spec fn obeys_eq_spec() -> bool {
        true
    }

    open spec fn eq_spec(&self, other: &SteamGame) -> bool {
        self.app_id == other.app_id
    }
}

/// The mathematical values of a sequence of title records.
pub open spec fn games_view(games: Seq<SteamGame>) -> Seq<SteamGameV> {
    games.map_values(|g: SteamGame| g@)
}

/// The mathematical value of a `SteamUserLibrary`.
#[verifier::ext_equal]
pub ghost struct SteamUserLibraryV {
    pub game_count: u32,
    pub games: Seq<SteamGameV>,
}

impl View for SteamUserLibrary {
    type V = SteamUserLibraryV;

    open spec fn view(&self) -> SteamUserLibraryV {
        SteamUserLibraryV { game_count: self.game_count, games: games_view(self.games@) }
    }
}

/// The mathematical value of an `OwnedGamesResponse`.
pub ghost struct OwnedGamesResponseV {
    pub response: Option<SteamUserLibraryV>,
}

impl View for OwnedGamesResponse {
    type V = OwnedGamesResponseV;

    open spec fn view(&self) -> OwnedGamesResponseV {
        OwnedGamesResponseV {
            response: match &self.response {
                Some(l) => Some(l@),
                None => None,
            },
        }
    }
}

/// The wire shape of one title entry: an object carrying the four required
/// fields under their wire names, with unknown fields ignored.
pub open spec fn spec_game_of_json(v: JsonValue) -> Option<SteamGameV> {
    match v {
        JsonValue::Object(fields) => {
            match (
                spec_lookup(fields@, "appid"@),
                spec_lookup(fields@, "name"@),
                spec_lookup(fields@, "playtime_forever"@),
                spec_lookup(fields@, "img_icon_url"@),
            ) {
                (
                    Some(JsonValue::UInt(app_id)),
                    Some(JsonValue::Text(name)),
                    Some(JsonValue::UInt(playtime)),
                    Some(JsonValue::Text(icon)),
                ) => Some(
                    SteamGameV {
                        app_id,
                        name: name@,
                        total_playtime: playtime,
                        img_icon_url: icon@,
                    },
                ),
                _ => None,
            }
        },
        _ => None,
    }
}

/// The wire shape of the title list: every entry must decode.
pub open spec fn spec_games_of_json(items: Seq<JsonValue>) -> Option<Seq<SteamGameV>> {
    if forall|i: int| 0 <= i < items.len() ==> spec_game_of_json(#[trigger] items[i]) is Some {
        Some(Seq::new(items.len(), |i: int| spec_game_of_json(items[i])->Some_0))
    } else {
        None
    }
}

/// The wire shape of the inner payload: an object with a count that fits a
/// 32-bit number and the title list.
pub open spec fn spec_library_of_json(v: JsonValue) -> Option<SteamUserLibraryV> {
    match v {
        JsonValue::Object(fields) => {
            match (spec_lookup(fields@, "game_count"@), spec_lookup(fields@, "games"@)) {
                (Some(JsonValue::UInt(n)), Some(JsonValue::Array(items))) => {
                    if n <= u32::MAX {
                        match spec_games_of_json(items@) {
                            Some(games) => Some(
                                SteamUserLibraryV { game_count: n as u32, games },
                            ),
                            None => None,
                        }
                    } else {
                        None
                    }
                },
                _ => None,
            }
        },
        _ => None,
    }
}

/// The wire shape of the whole payload: an object whose inner payload sits
/// under the `response` key; an absent or null key is a present-but-empty
/// wire record, while any other shape mismatch fails the decode.
pub open spec fn spec_wire_of_json(v: JsonValue) -> Option<OwnedGamesResponseV> {
    match v {
        JsonValue::Object(fields) => {
            match spec_lookup(fields@, "response"@) {
                None => Some(OwnedGamesResponseV { response: None }),
                Some(JsonValue::Null) => Some(OwnedGamesResponseV { response: None }),
                Some(inner) => match spec_library_of_json(inner) {
                    Some(l) => Some(OwnedGamesResponseV { response: Some(l) }),
                    None => None,
                },
            }
        },
        _ => None,
    }
}

/// An absent inner payload collapses to a zero-count, empty-list record
/// rather than an error.
pub open spec fn spec_collapse(w: OwnedGamesResponseV) -> SteamUserLibraryV {
    match w.response {
        Some(l) => l,
        None => SteamUserLibraryV { game_count: 0, games: Seq::empty() },
    }
}

/// How a raw JSON document translates to a domain record: a decodable wire
/// payload collapses to its record, and any shape mismatch is `NoData`.
pub open spec fn spec_parse_response(v: JsonValue) -> Result<SteamUserLibraryV, SteamErrorV> {
    match spec_wire_of_json(v) {
        Some(w) => Ok(spec_collapse(w)),
        None => Err(SteamErrorV::NoData),
    }
}

/// The whole owned-games fetch, from transport outcome to domain record.
pub open spec fn spec_user_library(o: FetchOutcomeV) -> Result<SteamUserLibraryV, SteamErrorV> {
    match spec_classify(o) {
        Ok(doc) => spec_parse_response(doc),
        Err(e) => Err(e),
    }
}

/// A `Result` of the fetch, as a mathematical value.
pub open spec fn lib_result_view(r: Result<SteamUserLibrary, SteamError>) -> Result<
    SteamUserLibraryV,
    SteamErrorV,
> {
    match r {
        Ok(l) => Ok(l@),
        Err(e) => Err(e@),
    }
}

/// Decodes one title entry, exactly as `spec_game_of_json` states.
fn decode_game(v: &JsonValue) -> (r: Option<SteamGame>)
    ensures
        match r {
            Some(g) => spec_game_of_json(*v) == Some(g@),
            None => spec_game_of_json(*v) is None,
        },
{
    match v {
        JsonValue::Object(fields) => {
            let app_id = lookup_field(fields, &"appid".to_owned());
            let name = lookup_field(fields, &"name".to_owned());
            let playtime = lookup_field(fields, &"playtime_forever".to_owned());
            let icon = lookup_field(fields, &"img_icon_url".to_owned());
            match (app_id, name, playtime, icon) {
                (
                    Some(JsonValue::UInt(app_id)),
                    Some(JsonValue::Text(name)),
                    Some(JsonValue::UInt(playtime)),
                    Some(JsonValue::Text(icon)),
                ) => Some(
                    SteamGame {
                        app_id: *app_id,
                        name: name.clone(),
                        total_playtime: *playtime,
                        img_icon_url: icon.clone(),
                    },
                ),
                _ => None,
            }
        },
        _ => None,
    }
}

/// Decodes the title list, exactly as `spec_games_of_json` states.
fn decode_games(items: &Vec<JsonValue>) -> (r: Option<Vec<SteamGame>>)
    ensures
        match r {
            Some(games) => spec_games_of_json(items@) == Some(games_view(games@)),
            None => spec_games_of_json(items@) is None,
        },
{
    let mut out: Vec<SteamGame> = Vec::new();
    let mut i: usize = 0;
    while i < items.len()
        invariant
            0 <= i <= items@.len(),
            out@.len() == i,
            forall|j: int| 0 <= j < i ==> spec_game_of_json(items@[j]) == Some(#[trigger] out@[j]@),
        decreases items@.len() - i,
    {
        match decode_game(&items[i]) {
            Some(g) => out.push(g),
            None => {
                return None;
            },
        }
        i += 1;
    }
    proof {
        assert forall|j: int| 0 <= j < items@.len() implies spec_game_of_json(
            #[trigger] items@[j],
        ) is Some by {
            assert(spec_game_of_json(items@[j]) == Some(out@[j]@));
        }
        let s = Seq::new(items@.len(), |j: int| spec_game_of_json(items@[j])->Some_0);
        assert(spec_games_of_json(items@) == Some(s));
        assert(s =~= games_view(out@));
    }
    Some(out)
}

/// Decodes the inner payload, exactly as `spec_library_of_json` states.
fn decode_library(v: &JsonValue) -> (r: Option<SteamUserLibrary>)
    ensures
        match r {
            Some(l) => spec_library_of_json(*v) == Some(l@),
            None => spec_library_of_json(*v) is None,
        },
{
    match v {
        JsonValue::Object(fields) => {
            let count = lookup_field(fields, &"game_count".to_owned());
            let games = lookup_field(fields, &"games".to_owned());
            match (count, games) {
                (Some(JsonValue::UInt(n)), Some(JsonValue::Array(items))) => {
                    if *n <= u32::MAX as u64 {
                        match decode_games(items) {
                            Some(games) => Some(
                                SteamUserLibrary { game_count: *n as u32, games },
                            ),
                            None => None,
                        }
                    } else {
                        None
                    }
                },
                _ => None,
            }
        },
        _ => None,
    }
}

/// Decodes the whole wire payload, exactly as `spec_wire_of_json` states.
fn decode_wire(v: &JsonValue) -> (r: Option<OwnedGamesResponse>)
    ensures
        match r {
            Some(w) => spec_wire_of_json(*v) == Some(w@),
            None => spec_wire_of_json(*v) is None,
        },
{
    match v {
        JsonValue::Object(fields) => {
            match lookup_field(fields, &"response".to_owned()) {
                None => Some(OwnedGamesResponse { response: None }),
                Some(JsonValue::Null) => Some(OwnedGamesResponse { response: None }),
                Some(inner) => match decode_library(inner) {
                    Some(l) => Some(OwnedGamesResponse { response: Some(l) }),
                    None => None,
                },
            }
        },
        _ => None,
    }
}

impl SteamUserLibrary {
    /// Collapses the wire record to the domain record: an absent inner
    /// payload becomes a zero-count, empty-list library.
    pub fn from(value: OwnedGamesResponse) -> (r: SteamUserLibrary)
        ensures
            r@ == spec_collapse(value@),
    {
        match value.response {
            Some(l) => SteamUserLibrary { game_count: l.game_count, games: l.games },
            None => SteamUserLibrary { game_count: 0, games: Vec::new() },
        }
    }
}

impl Default for SteamUserLibrary {
    /// The zero-count, empty-list library.
    fn default() -> (r: SteamUserLibrary)
        ensures
            r@ == (SteamUserLibraryV { game_count: 0, games: Seq::empty() }),
    {
        SteamUserLibrary { game_count: 0, games: Vec::new() }
    }
}

impl SteamClient {
    /// The fixed query for the owned-games endpoint: the subject identifier,
    /// and the two flags requesting app info and played free games.
    pub fn owned_games_query(&self, steam_id: &str) -> (q: Vec<(String, String)>)
        ensures
            q@.len() == 3,
            q@[0].0@ == "steamid"@ && q@[0].1@ == steam_id@,
            q@[1].0@ == "include_appInfo"@ && q@[1].1@ == "1"@,
            q@[2].0@ == "include_played_free_games"@ && q@[2].1@ == "1"@,
    {
        let mut q: Vec<(String, String)> = Vec::new();
        q.push(("steamid".to_owned(), steam_id.to_owned()));
        q.push(("include_appInfo".to_owned(), "1".to_owned()));
        q.push(("include_played_free_games".to_owned(), "1".to_owned()));
        q
    }

    /// Deserializes a raw response into the wire shape and collapses it to
    /// the domain record; a shape mismatch is `NoData`.
    pub fn parse_response(&self, response: JsonValue) -> (r: Result<SteamUserLibrary, SteamError>)
        ensures
            lib_result_view(r) == spec_parse_response(response),
    {
        match decode_wire(&response) {
            Some(w) => Ok(SteamUserLibrary::from(w)),
            None => Err(SteamError::NoData),
        }
    }

    /// The pure half of the owned-games fetch: classifies the transport
    /// outcome and translates the payload, exactly as `spec_user_library`
    /// states. The caller performs the network call against
    /// `owned_games_endpoint` with `build_query(owned_games_query(..))` and
    /// hands the observed outcome here.
    pub fn user_library_from_outcome(&self, outcome: FetchOutcome) -> (r: Result<
        SteamUserLibrary,
        SteamError,
    >)
        ensures
            lib_result_view(r) == spec_user_library(outcome@),
    {
        match self.classify_response(outcome) {
            Ok(doc) => self.parse_response(doc),
            Err(e) => Err(e),
        }
    }
}

impl Game {
    /// Maps a wire title to the shared domain title: the internal identifier
    /// is the unset placeholder, and only the upstream identifier and the
    /// display name carry over; playtime and icon are deliberately dropped.
    pub fn from(game: SteamGame) -> (r: Game)
        ensures
            r.id == 0,
            r.app_id == game.app_id,
            r.name@ == game.name@,
    {
        Game { id: 0, app_id: game.app_id, name: game.name }
    }
}

/// The upstream "GetOwnedGames" endpoint.
pub fn owned_games_endpoint() -> (r: &'static str)
    ensures
        r@ == "http://api.steampowered.com/IPlayerService/GetOwnedGames/v1"@,
{
    "http://api.steampowered.com/IPlayerService/GetOwnedGames/v1"
}

/// The owned-games query never uses the name reserved for the credential, so
/// `build_query` adds that name exactly once (`lemma_credential_exactly_once`).
pub proof fn lemma_owned_games_query_has_no_key(q: Seq<(String, String)>)
    requires
        q.len() == 3,
        q[0].0@ == "steamid"@,
        q[1].0@ == "include_appInfo"@,
        q[2].0@ == "include_played_free_games"@,
    ensures
        crate::steam_client::count_named(q, "key"@) == 0,
{
    reveal_strlit("steamid");
    reveal_strlit("include_appInfo");
    reveal_strlit("include_played_free_games");
    reveal_strlit("key");
    assert("key"@.len() == 3);
    assert("steamid"@.len() == 7);
    assert("include_appInfo"@.len() == 15);
    assert("include_played_free_games"@.len() == 25);
    assert(q.drop_first()[0] == q[1]);
    assert(q.drop_first().drop_first()[0] == q[2]);
    assert(crate::steam_client::count_named(q.drop_first().drop_first().drop_first(), "key"@)
        == 0);
    assert(crate::steam_client::count_named(q.drop_first().drop_first(), "key"@) == 0);
    assert(crate::steam_client::count_named(q.drop_first(), "key"@) == 0);
}

/// A wire payload whose object lacks the `response` key (or carries it as
/// null) yields the zero-count, empty-list record, not an error.
pub proof fn lemma_absent_response_is_empty(v: JsonValue)
    requires
        v matches JsonValue::Object(fields) && (spec_lookup(fields@, "response"@) is None
            || spec_lookup(fields@, "response"@) == Some(JsonValue::Null)),
    ensures
        spec_parse_response(v) == Ok::<SteamUserLibraryV, SteamErrorV>(
            SteamUserLibraryV { game_count: 0, games: Seq::empty() },
        ),
{
}

/// Repeating the fetch against an unchanged upstream (the same transport
/// outcome) yields structurally equal records: the result is a function of
/// the outcome alone.
pub proof fn lemma_fetch_idempotent(first: FetchOutcomeV, second: FetchOutcomeV)
    requires
        first == second,
    ensures
        spec_user_library(first) == spec_user_library(second),
{
}

} // verus!
