//! The request that updates rows of a table by a key column, and what its
//! answer means.

use vstd::prelude::*;
use crate::text::join;

verus! {

/// The address of the rows of `table` whose `column` equals `value`.
pub open spec fn endpoint_of(
    base: Seq<char>,
    table: Seq<char>,
    column: Seq<char>,
    value: Seq<char>,
) -> Seq<char> {
    base + "/rest/v1/"@ + table + "?"@ + column + "=eq."@ + value
}

/// Builds the address of the rows of `table` whose `column` equals `value`.
pub fn update_endpoint(base: &str, table: &str, column: &str, value: &str) -> (r: String)
    ensures
        r@ == endpoint_of(base@, table@, column@, value@),
{
    let mut r = String::from_str(base);
    r.append("/rest/v1/");
    r.append(table);
    r.append("?");
    r.append(column);
    r.append("=eq.");
    r.append(value);
    r
}

/// The value of the authorization header for an access key.
pub fn bearer(key: &str) -> (r: String)
    ensures
        r@ == "Bearer "@ + key@,
{
    join("Bearer ", key)
}

/// What an update returns, given the answer of the store: the key value
/// where the store reported success, and otherwise an error made of the
/// status line and the body of the answer.
pub fn update(accepted: bool, status_line: &str, body: &str, value: &str) -> (r: Result<
    String,
    String,
>)
    ensures
        accepted ==> r is Ok && r.unwrap()@ == value@,
        !accepted ==> r is Err && r.unwrap_err()@ == "Error "@ + status_line@ + ": "@ + body@,
{
    if accepted {
        Ok(String::from_str(value))
    } else {
        let mut message = String::from_str("Error ");
        message.append(status_line);
        message.append(": ");
        message.append(body);
        Err(message)
    }
}

} // verus!
