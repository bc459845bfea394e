//! The two GraphQL request bodies and the header set every request carries.
//!
//! The first body asks for one record per page and reads back the reported
//! page count; with one record per page that count is the total number of
//! records. The second body asks for every record on a single page sized
//! to that count.

use vstd::prelude::*;
use crate::config::AppConfig;
use crate::digits::dec_of_i64;
use crate::digits::i64_to_string;

verus! {

/// The body that discovers the record count: one record per page, asking
/// only for the reported page count.
pub open spec fn spec_count_query() -> Seq<char> {
    "{\"query\": \"{\\r\\n  phone_numbers(paginator: {page: 1, records_per_page: 1}) {\\r\\n    page_info {\\r\\n total_pages }\\r\\n}}\"}"@
}

/// The fetch body up to the page size.
pub open spec fn spec_fetch_prefix() -> Seq<char> {
    "{\"query\": \"{\\r\\n  phone_numbers(paginator: {page: 1, records_per_page: "@
}

/// The fetch body after the page size.
pub open spec fn spec_fetch_suffix() -> Seq<char> {
    "}) {\\r\\n    entities {\\r\\n      number\\r\\n      contact {\\r\\n        name\\r\\n      }\\r\\n    }\\r\\n  }\\r\\n}\"}"@
}

/// The body that fetches every record: a single page of `n` records,
/// asking for each entity's number and contact name.
pub open spec fn spec_fetch_query(n: int) -> Seq<char> {
    spec_fetch_prefix() + dec_of_i64(n) + spec_fetch_suffix()
}

/// Builds the count-discovery request body.
pub fn count_query() -> (r: String)
    ensures
        r@ == spec_count_query(),
{
    String::from_str(
        "{\"query\": \"{\\r\\n  phone_numbers(paginator: {page: 1, records_per_page: 1}) {\\r\\n    page_info {\\r\\n total_pages }\\r\\n}}\"}",
    )
}

/// Builds the fetch request body for a page of `n` records.
pub fn fetch_query(n: i64) -> (r: String)
    ensures
        r@ == spec_fetch_query(n as int),
{
    let mut s = String::from_str(
        "{\"query\": \"{\\r\\n  phone_numbers(paginator: {page: 1, records_per_page: ",
    );
    let count = i64_to_string(n);
    s.append(count.as_str());
    s.append(
        "}) {\\r\\n    entities {\\r\\n      number\\r\\n      contact {\\r\\n        name\\r\\n      }\\r\\n    }\\r\\n  }\\r\\n}\"}",
    );
    proof {
        assert(s@ =~= spec_fetch_query(n as int));
    }
    s
}

/// The headers every request carries: a JSON content type, and the API key
/// sent verbatim as the authorization value.
pub fn request_headers(cfg: &AppConfig) -> (r: Vec<(String, String)>)
    ensures
        r@.len() == 2,
        r@[0].0@ == "Content-Type"@,
        r@[0].1@ == "application/json"@,
        r@[1].0@ == "Authorization"@,
        r@[1].1@ == cfg.api_key@,
{
    let mut r: Vec<(String, String)> = Vec::new();
    r.push((String::from_str("Content-Type"), String::from_str("application/json")));
    r.push((String::from_str("Authorization"), cfg.api_key.clone()));
    r
}

} // verus!
