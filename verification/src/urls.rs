//! URL helpers for the client: reading the room identifier out of a page
//! address, and building the proxied image address.

use vstd::prelude::*;
use vstd::string::StringExecFns;

use crate::decimal::{parse_u64, spec_parse_u64};

verus! {

/// What `url::Url::parse` followed by `url::Url::query_pairs` yields on a
/// given text: `None` where the text is not a valid URL, otherwise the
/// decoded name/value pairs of its query string, in order.
pub uninterp spec fn url_query_pairs(s: Seq<char>) -> Option<Seq<(Seq<char>, Seq<char>)>>;

/// Relies on url::Url::parse and url::Url::query_pairs: whether a text parses
/// as a URL, and the decoded query pairs, are pure functions of the text,
/// named `url_query_pairs` above.
#[verifier::external_body]
fn query_pairs_of(href: &str) -> (r: Option<Vec<(String, String)>>)
    ensures
        match r {
            None => url_query_pairs(href@) is None,
            Some(pairs) => {
                &&& url_query_pairs(href@) matches Some(q)
                &&& q.len() == pairs@.len()
                &&& forall|i: int|
                    0 <= i < q.len() ==> q[i].0 == (#[trigger] pairs@[i]).0@ && q[i].1
                        == pairs@[i].1@
            },
        },
{
    match url::Url::parse(href) {
        Ok(u) => Some(u.query_pairs().map(|(k, v)| (k.into_owned(), v.into_owned())).collect()),
        Err(_) => None,
    }
}

/// What `urlencoding::encode` returns: a pure function of the text that
/// percent-encodes every byte except ASCII alphanumerics and `-`, `_`, `.`,
/// `~`.
pub uninterp spec fn percent_encoded(s: Seq<char>) -> Seq<char>;

/// Relies on urlencoding::encode.
#[verifier::external_body]
fn encode_component(s: &str) -> (r: String)
    ensures
        r@ == percent_encoded(s@),
{
    urlencoding::encode(s).into_owned()
}

/// The mathematical values of a sequence of name/value pairs.
pub open spec fn pairs_view(pairs: Seq<(String, String)>) -> Seq<(Seq<char>, Seq<char>)> {
    pairs.map_values(|p: (String, String)| (p.0@, p.1@))
}

/// The room identifier carried by decoded query pairs: the value of the
/// first `room_id` pair read as a decimal number, even when that read fails.
pub open spec fn spec_room_id(pairs: Seq<(Seq<char>, Seq<char>)>) -> Option<u64>
    decreases pairs.len(),
{
    if pairs.len() == 0 {
        None
    } else if pairs[0].0 == "room_id"@ {
        spec_parse_u64(pairs[0].1)
    } else {
        spec_room_id(pairs.drop_first())
    }
}

proof fn lemma_room_id_found(pairs: Seq<(Seq<char>, Seq<char>)>, i: int)
    requires
        0 <= i < pairs.len(),
        forall|j: int| 0 <= j < i ==> (#[trigger] pairs[j]).0 != "room_id"@,
        pairs[i].0 == "room_id"@,
    ensures
        spec_room_id(pairs) == spec_parse_u64(pairs[i].1),
    decreases i,
{
    if i > 0 {
        lemma_room_id_found(pairs.drop_first(), i - 1);
    }
}

proof fn lemma_room_id_absent(pairs: Seq<(Seq<char>, Seq<char>)>)
    requires
        forall|j: int| 0 <= j < pairs.len() ==> (#[trigger] pairs[j]).0 != "room_id"@,
    ensures
        spec_room_id(pairs) is None,
    decreases pairs.len(),
{
    if pairs.len() > 0 {
        lemma_room_id_absent(pairs.drop_first());
    }
}

/// The room identifier carried by the given query pairs, exactly as
/// `spec_room_id` states.
pub fn room_id_from_pairs(pairs: &Vec<(String, String)>) -> (r: Option<u64>)
    ensures
        r == spec_room_id(pairs_view(pairs@)),
{
    let key = "room_id".to_owned();
    let mut i: usize = 0;
    while i < pairs.len()
        invariant
            0 <= i <= pairs@.len(),
            key@ == "room_id"@,
            forall|j: int| 0 <= j < i ==> (#[trigger] pairs@[j]).0@ != "room_id"@,
        decreases pairs@.len() - i,
    {
        if pairs[i].0 == key {
            proof {
                assert(forall|j: int|
                    0 <= j < i ==> (#[trigger] pairs_view(pairs@)[j]).0 != "room_id"@);
                lemma_room_id_found(pairs_view(pairs@), i as int);
            }
            return parse_u64(pairs[i].1.as_str());
        }
        i += 1;
    }
    proof {
        assert(forall|j: int|
            0 <= j < pairs@.len() ==> (#[trigger] pairs_view(pairs@)[j]).0 != "room_id"@);
        lemma_room_id_absent(pairs_view(pairs@));
    }
    None
}

/// Reads the room identifier out of a page address: the value of the first
/// `room_id` query parameter, parsed as a decimal number.
pub fn parse_room_id_from_url(href: &str) -> (r: Option<u64>)
    ensures
        match url_query_pairs(href@) {
            Some(q) => r == spec_room_id(q),
            None => r is None,
        },
{
    match query_pairs_of(href) {
        Some(pairs) => {
            proof {
                assert(pairs_view(pairs@) =~= url_query_pairs(href@)->Some_0);
            }
            room_id_from_pairs(&pairs)
        },
        None => None,
    }
}

/// The address under which the client fetches an image through the CORS
/// proxy: the proxy prefix with the percent-encoded target appended.
pub fn proxy_image_url(target: &str) -> (r: String)
    ensures
        r@ == "https://corsproxy.io/?"@ + percent_encoded(target@),
{
    let mut r = "https://corsproxy.io/?".to_owned();
    r.append(encode_component(target).as_str());
    r
}

} // verus!
