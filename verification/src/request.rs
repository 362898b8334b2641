//! Request descriptors for the API's endpoints.
//!
//! Every operation of the API is a GET request against a path under one
//! base URL, carrying the bearer token, a fixed user agent and a few
//! query parameters.  The descriptor built here is plain data — the
//! path and the query pairs — and the transport outside this crate
//! turns it into an actual request.

use vstd::prelude::*;

use crate::digits::spec_decimal;
use crate::digits::u32_decimal;

verus! {

/// The filter a membership listing accepts.
#[derive(Debug, Clone, Copy, PartialEq, Eq, Structural)]
pub enum MemberStatus {
    Active,
    Inactive,
    All,
}

/// The query value each membership filter is sent as.
pub open spec fn spec_status_value(s: MemberStatus) -> Seq<char> {
    match s {
        MemberStatus::Active => "active"@,
        MemberStatus::Inactive => "inactive"@,
        MemberStatus::All => "all"@,
    }
}

/// Renders a membership filter as its query value.
pub fn status_value(s: MemberStatus) -> (r: &'static str)
    ensures
        r@ == spec_status_value(s),
{
    match s {
        MemberStatus::Active => "active",
        MemberStatus::Inactive => "inactive",
        MemberStatus::All => "all",
    }
}

/// One GET request to make: a path below the API prefix and the query
/// parameters to attach.
pub struct RequestDescriptor {
    pub path: String,
    pub query: Vec<(String, String)>,
}

/// The base URL every path is appended to.
pub fn api_prefix() -> (r: &'static str)
    ensures
        r@ == "https://developers.buymeacoffee.com/api"@,
{
    "https://developers.buymeacoffee.com/api"
}

/// The user-agent value sent with every request.
pub fn user_agent() -> (r: &'static str)
    ensures
        r@ == "buy-me-a-coffee-rs/0.1.0"@,
{
    "buy-me-a-coffee-rs/0.1.0"
}

/// The request that lists members: filtered by status, paginated.
pub fn members_request(status: MemberStatus, page: u16) -> (r: RequestDescriptor)
    ensures
        r.path@ == "/v1/subscriptions"@,
        r.query@.len() == 2,
        r.query@[0].0@ == "status"@,
        r.query@[0].1@ == spec_status_value(status),
        r.query@[1].0@ == "page"@,
        r.query@[1].1@ == spec_decimal(page as nat),
{
    let mut query: Vec<(String, String)> = Vec::new();
    query.push(("status".to_owned(), status_value(status).to_owned()));
    query.push(("page".to_owned(), u32_decimal(page as u32)));
    RequestDescriptor { path: "/v1/subscriptions".to_owned(), query }
}

/// The request that looks one membership up by its identifier.
pub fn membership_request(id: u32) -> (r: RequestDescriptor)
    ensures
        r.path@ == "/v1/subscriptions/"@ + spec_decimal(id as nat),
        r.query@.len() == 0,
{
    let mut path = "/v1/subscriptions/".to_owned();
    path.append(u32_decimal(id).as_str());
    RequestDescriptor { path, query: Vec::new() }
}

/// The request that lists one-time supporters, paginated.
pub fn supporters_request(page: u16) -> (r: RequestDescriptor)
    ensures
        r.path@ == "/v1/supporters"@,
        r.query@.len() == 1,
        r.query@[0].0@ == "page"@,
        r.query@[0].1@ == spec_decimal(page as nat),
{
    let mut query: Vec<(String, String)> = Vec::new();
    query.push(("page".to_owned(), u32_decimal(page as u32)));
    RequestDescriptor { path: "/v1/supporters".to_owned(), query }
}

/// The request that looks one support up by its identifier.
pub fn support_request(id: u32) -> (r: RequestDescriptor)
    ensures
        r.path@ == "/v1/supporters/"@ + spec_decimal(id as nat),
        r.query@.len() == 0,
{
    let mut path = "/v1/supporters/".to_owned();
    path.append(u32_decimal(id).as_str());
    RequestDescriptor { path, query: Vec::new() }
}

/// The request that lists extra purchases, paginated.
pub fn extras_request(page: u16) -> (r: RequestDescriptor)
    ensures
        r.path@ == "/v1/extras"@,
        r.query@.len() == 1,
        r.query@[0].0@ == "page"@,
        r.query@[0].1@ == spec_decimal(page as nat),
{
    let mut query: Vec<(String, String)> = Vec::new();
    query.push(("page".to_owned(), u32_decimal(page as u32)));
    RequestDescriptor { path: "/v1/extras".to_owned(), query }
}

/// The request that looks one extra purchase up by its purchase
/// identifier.
pub fn extra_request(id: u32) -> (r: RequestDescriptor)
    ensures
        r.path@ == "/v1/extras/"@ + spec_decimal(id as nat),
        r.query@.len() == 0,
{
    let mut path = "/v1/extras/".to_owned();
    path.append(u32_decimal(id).as_str());
    RequestDescriptor { path, query: Vec::new() }
}

/// Replaces every character of a bearer token with an asterisk, for
/// debug output: the mask has the token's length and nothing else of it.
pub fn masked_token(token: &str) -> (r: String)
    ensures
        r@.len() == token@.len(),
        forall|i: int| 0 <= i < r@.len() ==> r@[i] == '*',
{
    let n = token.unicode_len();
    let mut s = String::new();
    let mut i: usize = 0;
    while i < n
        invariant
            s@.len() == i,
            i <= n,
            forall|j: int| 0 <= j < i ==> s@[j] == '*',
        decreases n - i,
    {
        proof {
            reveal_strlit("*");
        }
        s.append("*");
        i += 1;
    }
    s
}

} // verus!
