//! The demonstration service that the example program hosts.
use vstd::prelude::*;

verus! {

/// The demonstration service's answer to request `req`: the next number.
pub fn next_number(req: u64) -> (r: u64)
    requires
        req < u64::MAX,
    ensures
        r == req + 1,
{
    req + 1
}

} // verus!
