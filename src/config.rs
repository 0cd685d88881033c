//! Settings of a server process.

use vstd::prelude::*;

verus! {

/// Build profile that the logger is configured for.
#[derive(PartialEq, Eq, Structural, Clone, Copy, Debug)]
pub enum Profile {
    Dev,
    Release,
}

/// Settings of a server process.
pub struct Config {
    pub profile: Profile,
    /// Shared secret that clients must give first, if any.
    pub password: Option<String>,
    /// Server log that the chat history is restored from, if any.
    pub log_file: Option<String>,
    /// Address to listen on, `host:port`.
    pub host: String,
}

/// The settings the server runs with: development profile, no password,
/// listening on `localhost:8081`, history restored from `./log/chat-server.log`.
pub fn get_config() -> (r: Config)
    ensures
        r.profile == Profile::Dev,
        r.password is None,
        r.host@ == "localhost:8081"@,
        r.log_file is Some && r.log_file->0@ == "./log/chat-server.log"@,
{
    Config {
        profile: Profile::Dev,
        password: None,
        host: "localhost:8081".to_owned(),
        log_file: Some("./log/chat-server.log".to_owned()),
    }
}

} // verus!
