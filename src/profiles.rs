//! Build profiles and the files that go with them.

use vstd::prelude::*;

verus! {

/// Build profile of the running binary.
#[derive(PartialEq, Eq, Structural, Clone, Copy, Debug)]
pub enum Profile {
    Dev,
    Release,
}

/// The profile of a build: `Dev` where debug assertions are on, else `Release`.
pub fn get_active_profile(debug_assertions: bool) -> (r: Profile)
    ensures
        r == (if debug_assertions {
            Profile::Dev
        } else {
            Profile::Release
        }),
{
    if debug_assertions {
        Profile::Dev
    } else {
        Profile::Release
    }
}

/// Path of the server log.
pub fn get_log_file() -> (r: &'static str)
    ensures
        r@ == "./log/chat-server.log"@,
{
    "./log/chat-server.log"
}

} // verus!
