//! The per-connection session protocol: optional password, nickname handshake,
//! then relaying lines between the client and the other sessions.
//!
//! A session only decides; whoever drives it reads from the client, hands each
//! event to the session and carries out the output it returns.

use vstd::prelude::*;
use vstd::utf8::encode_utf8;

use crate::cache::{concat_all, ChatHistory, ClientCache, Socket, START_CHATTING};
use crate::message::{nickname_in, record_text, send_msg_update_chat_history};
use crate::text::{trim, trimmed};

verus! {

broadcast use vstd::string::group_string_axioms;

/// Prompt written when the server has a password.
pub const PASSWORD_PROMPT: &'static str = "Enter password: ";

/// Prompt written before the nickname is read.
pub const NICKNAME_PROMPT: &'static str = "Enter nickname: ";

/// Fewest bytes a nickname may have.
pub const MIN_NICKNAME_LEN: usize = 3;

/// Most bytes a nickname may have.
pub const MAX_NICKNAME_LEN: usize = 32;

/// Whether `n` is acceptable as a nickname: 3 to 32 bytes of UTF-8.
pub open spec fn valid_nickname(n: Seq<char>) -> bool {
    MIN_NICKNAME_LEN <= encode_utf8(n).len() <= MAX_NICKNAME_LEN
}

/// Where a session stands in its protocol.
#[derive(PartialEq, Eq, Structural, Clone, Copy, Debug)]
pub enum SessionState {
    Connecting,
    Authenticating,
    NamingHandshake,
    Active,
    Closed,
}

/// What the driver of a session is to do after an event.
#[derive(PartialEq, Eq, Debug)]
pub enum SessionOutput {
    /// Nothing.
    Nothing,
    /// Write the text to the client.
    Write(String),
    /// Write the text to the client, then subscribe to the broadcasts.
    Welcome(String),
    /// Publish the record, tagged with this session's id, to every session.
    Publish(String),
    /// Close the connection.
    Close,
}

/// One client connection.
pub struct Session {
    /// Identity of the connection.
    pub id: Socket,
    /// The password the server asks for, if any.
    pub password: Option<String>,
    /// Where the session stands.
    pub state: SessionState,
}

impl Session {
    /// Whether a broadcast from `origin` is written to this session's client.
    pub open spec fn delivers(&self, origin: Seq<char>) -> bool {
        self.state == SessionState::Active && self.id@ != origin
    }

    /// A session for a connection just accepted.
    pub fn new(id: Socket, password: Option<String>) -> (r: Session)
        ensures
            r.id == id,
            r.password == password,
            r.state == SessionState::Connecting,
    {
        Session { id, password, state: SessionState::Connecting }
    }

    /// Opens the handshake: asks for the password if there is one, else for
    /// the nickname. Does nothing past the start.
    pub fn start(&mut self) -> (r: SessionOutput)
        ensures
            final(self).id == old(self).id,
            final(self).password == old(self).password,
            old(self).state == SessionState::Connecting && old(self).password is Some ==> {
                &&& final(self).state == SessionState::Authenticating
                &&& r matches SessionOutput::Write(t) && t@ == PASSWORD_PROMPT@
            },
            old(self).state == SessionState::Connecting && old(self).password is None ==> {
                &&& final(self).state == SessionState::NamingHandshake
                &&& r matches SessionOutput::Write(t) && t@ == NICKNAME_PROMPT@
            },
            old(self).state != SessionState::Connecting ==> {
                &&& final(self).state == old(self).state
                &&& r == SessionOutput::Nothing
            },
    {
        if self.state != SessionState::Connecting {
            return SessionOutput::Nothing;
        }
        match &self.password {
            Some(_) => {
                self.state = SessionState::Authenticating;
                SessionOutput::Write(PASSWORD_PROMPT.to_owned())
            },
            None => {
                self.state = SessionState::NamingHandshake;
                SessionOutput::Write(NICKNAME_PROMPT.to_owned())
            },
        }
    }

    /// Handles a line read from the client.
    ///
    /// While authenticating, the trimmed line must equal the password, else the
    /// session closes. While naming, a trimmed line of valid length becomes the
    /// client's nickname in `registry` and the client gets the history followed by
    /// the start line; any other closes the session. Once active, a line that is
    /// not blank becomes a record of now, appended to `history` and published.
    pub fn on_line(&mut self, line: &str, registry: &mut ClientCache, history: &mut ChatHistory) -> (r:
        SessionOutput)
        ensures
            final(self).id == old(self).id,
            final(self).password == old(self).password,
            old(self).state == SessionState::Authenticating ==> {
                &&& *final(registry) == *old(registry)
                &&& final(history)@ == old(history)@
                &&& if old(self).password is None || old(self).password->0@ == trim(line@) {
                    &&& final(self).state == SessionState::NamingHandshake
                    &&& r matches SessionOutput::Write(t) && t@ == NICKNAME_PROMPT@
                } else {
                    &&& final(self).state == SessionState::Closed
                    &&& r == SessionOutput::Close
                }
            },
            old(self).state == SessionState::NamingHandshake ==> {
                &&& final(history)@ == old(history)@
                &&& if valid_nickname(trim(line@)) {
                    &&& final(self).state == SessionState::Active
                    &&& final(registry)@ == old(registry)@.insert(old(self).id@, trim(line@))
                    &&& r matches SessionOutput::Welcome(t) && t@ == concat_all(old(history)@)
                        + START_CHATTING@
                } else {
                    &&& final(self).state == SessionState::Closed
                    &&& *final(registry) == *old(registry)
                    &&& r == SessionOutput::Close
                }
            },
            old(self).state == SessionState::Active ==> {
                &&& final(self).state == SessionState::Active
                &&& *final(registry) == *old(registry)
                &&& if trim(line@).len() == 0 {
                    &&& final(history)@ == old(history)@
                    &&& r == SessionOutput::Nothing
                } else {
                    &&& r matches SessionOutput::Publish(t) && {
                        &&& exists|time: Seq<char>|
                            t@ == record_text(time, nickname_in(old(registry)@, old(self).id@), line@)
                        &&& final(history)@ == old(history)@.push(t@)
                    }
                }
            },
            old(self).state == SessionState::Connecting || old(self).state == SessionState::Closed
                ==> {
                &&& final(self).state == old(self).state
                &&& *final(registry) == *old(registry)
                &&& final(history)@ == old(history)@
                &&& r == SessionOutput::Nothing
            },
    {
        match self.state {
            SessionState::Authenticating => {
                let accepted = match &self.password {
                    Some(p) => check_password(p.as_str(), line),
                    None => true,
                };
                if accepted {
                    self.state = SessionState::NamingHandshake;
                    SessionOutput::Write(NICKNAME_PROMPT.to_owned())
                } else {
                    self.state = SessionState::Closed;
                    SessionOutput::Close
                }
            },
            SessionState::NamingHandshake => {
                let nickname = trimmed(line);
                if is_valid_nickname(nickname.as_str()) {
                    registry.insert(self.id.clone(), nickname);
                    self.state = SessionState::Active;
                    SessionOutput::Welcome(history.replay_block())
                } else {
                    self.state = SessionState::Closed;
                    SessionOutput::Close
                }
            },
            SessionState::Active => {
                let body = trimmed(line);
                if body.as_str().is_empty() {
                    SessionOutput::Nothing
                } else {
                    let record = send_msg_update_chat_history(line, &self.id, registry, history);
                    SessionOutput::Publish(record)
                }
            },
            _ => SessionOutput::Nothing,
        }
    }

    /// Handles a failed read: the client is gone. An active session takes its
    /// entry out of `registry`; every session closes.
    pub fn on_read_failed(&mut self, registry: &mut ClientCache) -> (r: SessionOutput)
        ensures
            final(self).id == old(self).id,
            final(self).password == old(self).password,
            final(self).state == SessionState::Closed,
            r == SessionOutput::Close,
            old(self).state == SessionState::Active ==> final(registry)@ == old(registry)@.remove(
                old(self).id@,
            ),
            old(self).state != SessionState::Active ==> *final(registry) == *old(registry),
    {
        if self.state == SessionState::Active {
            let _gone = registry.remove(&self.id);
        }
        self.state = SessionState::Closed;
        SessionOutput::Close
    }

    /// Handles a broadcast `text` published by the session `origin`: an active
    /// session writes it to its client unless it published it itself.
    pub fn on_broadcast(&self, text: &str, origin: &Socket) -> (r: SessionOutput)
        ensures
            self.delivers(origin@) ==> (r matches SessionOutput::Write(t) && t@ == text@),
            !self.delivers(origin@) ==> r == SessionOutput::Nothing,
    {
        if self.state == SessionState::Active && !(self.id == *origin) {
            SessionOutput::Write(text.to_owned())
        } else {
            SessionOutput::Nothing
        }
    }
}

/// A broadcast is never written back to the session that published it, and
/// is written to every other active session.
pub proof fn lemma_broadcast_skips_origin(a: Session, b: Session)
    requires
        b.state == SessionState::Active,
        a.id@ != b.id@,
    ensures
        !a.delivers(a.id@),
        b.delivers(a.id@),
{
}

/// Whether the line a client sent, once trimmed, is exactly `password`.
pub fn check_password(password: &str, line: &str) -> (r: bool)
    ensures
        r == (password@ == trim(line@)),
{
    let input = trimmed(line);
    let expected = password.to_owned();
    expected == input
}

/// Whether `n` is acceptable as a nickname.
pub fn is_valid_nickname(n: &str) -> (r: bool)
    ensures
        r == valid_nickname(n@),
{
    let len = n.as_bytes().len();
    MIN_NICKNAME_LEN <= len && len <= MAX_NICKNAME_LEN
}

} // verus!
