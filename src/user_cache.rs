//! A bare registry of connected users.

use vstd::hash_map::StringHashMap;
use vstd::prelude::*;

verus! {

/// Identity of a live connection.
pub type Socket = String;

/// A nickname chosen by a client.
pub type UserID = String;

/// Connected users, keyed by connection.
pub struct Shared {
    pub clients: StringHashMap<UserID>,
}

/// A registry with no users.
pub fn new_cache() -> (r: Shared)
    ensures
        r.clients@ == Map::<Seq<char>, UserID>::empty(),
{
    Shared { clients: StringHashMap::new() }
}

} // verus!
