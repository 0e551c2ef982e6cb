//! Where the tracker serves an issue.

use crate::text::{decimal, decimal_of, string_of};
use vstd::prelude::*;
use vstd::string::StringExecFns;

verus! {

/// The address of a ticket on a tracker: `https://<host>/issues/<ticket>.json`.
pub open spec fn issue_address(host: Seq<char>, ticket: int) -> Seq<char> {
    "https://"@ + host + "/issues/"@ + decimal(ticket) + ".json"@
}

/// The address from which a ticket is fetched.
pub fn issue_url(host: &str, ticket: i64) -> (url: String)
    ensures
        url@ == issue_address(host@, ticket as int),
{
    let number = decimal_of(ticket);
    let mut url = String::from_str("https://");
    url.append(host);
    url.append("/issues/");
    url.append(string_of(&number, 0, number.len()).as_str());
    url.append(".json");
    assert(number@.subrange(0, number@.len() as int) =~= number@);
    url
}

} // verus!
