//! The address a server listens on.

use vstd::prelude::*;

verus! {

/// The listening address of a build: local only where debug assertions are on,
/// every interface otherwise; port 8080 either way.
pub fn get_host(debug_assertions: bool) -> (r: &'static str)
    ensures
        debug_assertions ==> r@ == "localhost:8080"@,
        !debug_assertions ==> r@ == "0.0.0.0:8080"@,
{
    if debug_assertions {
        "localhost:8080"
    } else {
        "0.0.0.0:8080"
    }
}

} // verus!
