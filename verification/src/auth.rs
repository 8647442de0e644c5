//! Bearer-token authentication: an inbound `Authorization` header value is
//! accepted exactly when it equals `"Bearer "` followed by the configured
//! token.

use vstd::prelude::*;
use vstd::string::*;

verus! {

/// The exact header value a request must carry for the given token.
pub open spec fn expected_header(token: Seq<char>) -> Seq<char> {
    "Bearer "@ + token
}

/// Accepts a request exactly when the `Authorization` header is present and
/// equals `"Bearer "` followed by the expected token. A missing header, a
/// wrong scheme, or any other mismatch is rejected.
pub fn authenticate(header: Option<&String>, token: &String) -> (r: bool)
    ensures
        r == match header {
            Some(h) => h@ == expected_header(token@),
            None => false,
        },
{
    match header {
        None => false,
        Some(h) => {
            let expected = String::from_str("Bearer ").concat(token.as_str());
            *h == expected
        },
    }
}

} // verus!
