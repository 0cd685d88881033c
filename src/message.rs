//! Formatting of chat records and their entry into the history.

use vstd::prelude::*;

use crate::cache::{ChatHistory, ClientCache, Socket, LINE_END};
use crate::text::{trim, trimmed};

verus! {

broadcast use vstd::string::group_string_axioms;

/// How the time of a record is written: `YYYY-MM-DD HH:MM:SS`.
pub const TIME_FORMAT: &'static str = "%Y-%m-%d %H:%M:%S";

/// Nickname written for a sender that the registry does not know.
pub const UNKNOWN_USER: &'static str = "unknown";

/// The nickname that `registry` holds for `socket`, if any.
pub open spec fn nickname_in(registry: Map<Seq<char>, Seq<char>>, socket: Seq<char>) -> Option<
    Seq<char>,
> {
    if registry.contains_key(socket) {
        Some(registry[socket])
    } else {
        None
    }
}

/// The bracketed sender of a record: its nickname, or `unknown` when it has none.
pub open spec fn sender_label(nickname: Option<Seq<char>>) -> Seq<char> {
    match nickname {
        Some(n) => "["@ + n + "]"@,
        None => "["@ + UNKNOWN_USER@ + "]"@,
    }
}

/// The record of `msg` sent by `nickname` at `time`:
/// `|<time>| [<nickname>]: <trimmed msg>\r\n`.
pub open spec fn record_text(time: Seq<char>, nickname: Option<Seq<char>>, msg: Seq<char>) -> Seq<
    char,
> {
    "|"@ + time + "| "@ + sender_label(nickname) + ": "@ + trim(msg) + LINE_END@
}

/// A record from a connection that the registry does not know names its
/// sender `[unknown]`.
pub proof fn lemma_unknown_sender(
    time: Seq<char>,
    registry: Map<Seq<char>, Seq<char>>,
    socket: Seq<char>,
    msg: Seq<char>,
)
    requires
        !registry.contains_key(socket),
    ensures
        record_text(time, nickname_in(registry, socket), msg) == "|"@ + time + "| "@ + "[unknown]"@
            + ": "@ + trim(msg) + "\r\n"@,
{
    reveal_strlit("unknown");
    reveal_strlit("[unknown]");
    reveal_strlit("[");
    reveal_strlit("]");
    reveal_strlit("\r\n");
    assert("["@ + UNKNOWN_USER@ + "]"@ =~= "[unknown]"@);
}

/// Relies on `chrono::Local::now` and `DateTime::format`: the local time now,
/// written with `pattern`. The pattern is the library's own, whose items are all
/// valid, so writing it out cannot fail.
#[verifier::external_body]
fn local_time_now(pattern: &str) -> (r: String)
    requires
        pattern@ == TIME_FORMAT@,
{
    chrono::Local::now().format(pattern).to_string()
}

/// The record of `msg` sent from `socket` at `time`, with the nickname that
/// `client_cache` holds for `socket`.
pub fn response_message_at(time: &str, msg: &str, client_cache: &ClientCache, socket: &Socket) -> (r:
    String)
    ensures
        r@ == record_text(time@, nickname_in(client_cache@, socket@), msg@),
{
    let mut out = "|".to_owned();
    out.append(time);
    out.append("| ");
    out.append("[");
    match client_cache.get(socket) {
        Some(id) => out.append(id.as_str()),
        None => out.append(UNKNOWN_USER),
    }
    out.append("]");
    out.append(": ");
    let body = trimmed(msg);
    out.append(body.as_str());
    out.append(LINE_END);
    assert(out@ =~= record_text(time@, nickname_in(client_cache@, socket@), msg@));
    out
}

/// The record of `msg` sent from `socket` now, with the nickname that
/// `client_cache` holds for `socket`.
pub fn get_response_message(msg: &str, client_cache: &ClientCache, socket: &Socket) -> (r: String)
    ensures
        exists|time: Seq<char>| r@ == record_text(time, nickname_in(client_cache@, socket@), msg@),
{
    let time = local_time_now(TIME_FORMAT);
    response_message_at(time.as_str(), msg, client_cache, socket)
}

/// Formats `msg` from `socket` as a record of now, appends it to `chat_history`
/// and hands it back for broadcasting.
pub fn send_msg_update_chat_history(
    msg: &str,
    socket: &Socket,
    user_cache: &ClientCache,
    chat_history: &mut ChatHistory,
) -> (r: String)
    ensures
        exists|time: Seq<char>| r@ == record_text(time, nickname_in(user_cache@, socket@), msg@),
        final(chat_history)@ == old(chat_history)@.push(r@),
{
    let record = get_response_message(msg, user_cache, socket);
    chat_history.insert(record.clone());
    record
}

} // verus!
