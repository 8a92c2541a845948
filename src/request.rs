use vstd::prelude::*;

verus! {

/// The leaderboard service's endpoint.
pub const LEADERS_URL: &'static str = "https://click.sqweeb.net/shitlist.v1.ShitlistService/Leaders";

/// An HTTP request as plain values, for the transport to send.
pub struct FetchRequest {
    pub method: String,
    pub url: String,
    pub body: Vec<u8>,
    pub headers: Vec<(String, String)>,
}

/// The one request a fetch attempt sends: a POST of the empty JSON object
/// to the leaderboard endpoint, marked as JSON.
pub fn leaders_request() -> (r: FetchRequest)
    ensures
        r.method@ == "POST"@,
        r.url@ == LEADERS_URL@,
        r.body@ == seq![123u8, 125u8],
        r.headers@.len() == 1,
        r.headers@[0].0@ == "Content-Type"@,
        r.headers@[0].1@ == "application/json"@,
{
    let headers: Vec<(String, String)> = vec![("Content-Type".to_owned(), "application/json".to_owned())];
    FetchRequest {
        method: "POST".to_owned(),
        url: LEADERS_URL.to_owned(),
        body: vec![123u8, 125u8],
        headers,
    }
}

} // verus!
