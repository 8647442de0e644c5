//! The fixed database endpoint derived from the configured region: no
//! service discovery, just the region spliced into a fixed host pattern.

use vstd::prelude::*;
use vstd::string::*;

verus! {

/// The contact point of the tenant-configuration database for a region.
pub open spec fn contact_point_spec(region: Seq<char>) -> Seq<char> {
    "cassandra."@ + region + ".amazonaws.com:9142"@
}

/// Resolves the fixed network endpoint for the supplied region.
pub fn contact_point(region: &String) -> (r: String)
    ensures
        r@ == contact_point_spec(region@),
{
    String::from_str("cassandra.").concat(region.as_str()).concat(".amazonaws.com:9142")
}

} // verus!
