//! The client registry and the bounded chat history.

use vstd::hash_map::StringHashMap;
use vstd::prelude::*;

use crate::text::{chars_of, contains_chars, has_infix};

verus! {

broadcast use vstd::string::group_string_axioms;

/// Identity of a live connection, derived from the peer address.
pub type Socket = String;

/// A nickname chosen by a client.
pub type UserID = String;

/// How many records the chat history keeps at most.
pub const TO_DRAIN: usize = 999;

/// Marker that a line of the server log carries when it records a chat message.
pub const LOG_MESSAGE_MARKER: &'static str = "INFO: Message: |";

/// Length of the prefix that the logging infrastructure writes before each record.
pub const LOG_PREFIX_LEN: usize = 37;

/// Line terminator of every record sent to a client.
pub const LINE_END: &'static str = "\r\n";

/// Line written to a newly joined client after the replayed history.
pub const START_CHATTING: &'static str = "+---------------Start chatting---------------+\r\n";

/// The views of a sequence of strings.
pub open spec fn views(s: Seq<String>) -> Seq<Seq<char>> {
    s.map_values(|x: String| x@)
}

/// Mapping from a live connection to the nickname of its client.
pub struct ClientCache {
    clients: StringHashMap<UserID>,
}

impl View for ClientCache {
    type V = Map<Seq<char>, Seq<char>>;

    closed spec fn view(&self) -> Map<Seq<char>, Seq<char>> {
        self.clients@.map_values(|u: UserID| u@)
    }
}

impl ClientCache {
    /// An empty registry.
    pub fn new_cache() -> (r: ClientCache)
        ensures
            r@ == Map::<Seq<char>, Seq<char>>::empty(),
    {
        let r = ClientCache { clients: StringHashMap::new() };
        assert(r@ =~= Map::<Seq<char>, Seq<char>>::empty());
        r
    }

    /// Records `user_id` as the nickname of `socket`, replacing any earlier one.
    pub fn insert(&mut self, socket: Socket, user_id: UserID)
        ensures
            final(self)@ == old(self)@.insert(socket@, user_id@),
    {
        self.clients.insert(socket, user_id);
        assert(self@ =~= old(self)@.insert(socket@, user_id@));
    }

    /// The nickname of `socket`, if it has one.
    pub fn get(&self, socket: &Socket) -> (r: Option<UserID>)
        ensures
            r is Some <==> self@.contains_key(socket@),
            r is Some ==> r->0@ == self@[socket@],
    {
        match self.clients.get(socket.as_str()) {
            Some(u) => Some(u.clone()),
            None => None,
        }
    }

    /// Forgets `socket` and hands back the nickname it had.
    pub fn remove(&mut self, socket: &Socket) -> (r: Option<UserID>)
        ensures
            final(self)@ == old(self)@.remove(socket@),
            r is Some <==> old(self)@.contains_key(socket@),
            r is Some ==> r->0@ == old(self)@[socket@],
    {
        let r = self.get(socket);
        self.clients.remove(socket.as_str());
        assert(self@ =~= old(self)@.remove(socket@));
        r
    }
}

/// All records of `s` joined in order.
pub open spec fn concat_all(s: Seq<Seq<char>>) -> Seq<char>
    decreases s.len(),
{
    if s.len() == 0 {
        Seq::empty()
    } else {
        concat_all(s.drop_last()) + s.last()
    }
}

/// Whether a line of the server log records a chat message.
pub open spec fn is_record_line(line: Seq<char>) -> bool {
    LOG_PREFIX_LEN <= line.len() && has_infix(line, LOG_MESSAGE_MARKER@)
}

/// The chat record that a log line holds: the line after its prefix, terminated.
pub open spec fn record_of_line(line: Seq<char>) -> Seq<char> {
    line.subrange(LOG_PREFIX_LEN as int, line.len() as int) + LINE_END@
}

/// The records held by `lines`, which run from the newest line to the oldest; newest first.
pub open spec fn newest_records(lines: Seq<Seq<char>>) -> Seq<Seq<char>>
    decreases lines.len(),
{
    if lines.len() == 0 {
        Seq::empty()
    } else {
        let r = newest_records(lines.drop_last());
        if is_record_line(lines.last()) {
            r.push(record_of_line(lines.last()))
        } else {
            r
        }
    }
}

/// The history restored from log lines given newest first: the newest `TO_DRAIN`
/// records, oldest first.
pub open spec fn history_from_log(lines: Seq<Seq<char>>) -> Seq<Seq<char>> {
    let r = newest_records(lines);
    if r.len() <= TO_DRAIN {
        r.reverse()
    } else {
        r.take(TO_DRAIN as int).reverse()
    }
}

/// `h` cut back to its newest `max_len` records.
pub open spec fn trimmed_history(h: Seq<Seq<char>>, max_len: nat) -> Seq<Seq<char>> {
    if h.len() <= max_len {
        h
    } else {
        h.subrange(h.len() - max_len, h.len() as int)
    }
}

/// Trimming a history of any length leaves at most `max_len` records, and
/// takes away only the oldest ones, no more than the excess over `max_len`.
pub proof fn lemma_trim_bound(h: Seq<Seq<char>>, max_len: nat)
    ensures
        trimmed_history(h, max_len).len() <= max_len,
        h.len() <= max_len ==> trimmed_history(h, max_len) == h,
        h.len() > max_len ==> h.len() - trimmed_history(h, max_len).len() == h.len() - max_len,
        trimmed_history(h, max_len) == h.subrange(
            h.len() - trimmed_history(h, max_len).len(),
            h.len() as int,
        ),
{
    if h.len() <= max_len {
        assert(h.subrange(0, h.len() as int) =~= h);
    }
}

/// The records found in a prefix of the lines begin the records found in all of them.
proof fn lemma_newest_records_prefix(lines: Seq<Seq<char>>, i: int)
    requires
        0 <= i <= lines.len(),
    ensures
        newest_records(lines.take(i)).len() <= newest_records(lines).len(),
        newest_records(lines).take(newest_records(lines.take(i)).len() as int)
            == newest_records(lines.take(i)),
    decreases lines.len(),
{
    if i == lines.len() {
        assert(lines.take(i) =~= lines);
        assert(newest_records(lines).take(newest_records(lines).len() as int) =~= newest_records(lines));
    } else {
        lemma_newest_records_prefix(lines.drop_last(), i);
        assert(lines.drop_last().take(i) =~= lines.take(i));
        let p = newest_records(lines.take(i));
        let r = newest_records(lines.drop_last());
        assert(newest_records(lines).take(p.len() as int) =~= r.take(p.len() as int));
    }
}

/// Ordered log of formatted chat records, oldest first.
pub struct ChatHistory {
    pub history: std::collections::VecDeque<String>,
}

impl View for ChatHistory {
    type V = Seq<Seq<char>>;

    open spec fn view(&self) -> Seq<Seq<char>> {
        views(self.history@)
    }
}

impl ChatHistory {
    /// A history with no records.
    pub fn empty_chat_history() -> (r: ChatHistory)
        ensures
            r@ == Seq::<Seq<char>>::empty(),
    {
        let r = ChatHistory { history: std::collections::VecDeque::new() };
        assert(r@ =~= Seq::<Seq<char>>::empty());
        r
    }

    /// Appends `msg` as the newest record.
    pub fn insert(&mut self, msg: String)
        ensures
            final(self)@ == old(self)@.push(msg@),
    {
        self.history.push_back(msg);
        assert(self@ =~= old(self)@.push(msg@));
    }

    /// Removes the oldest records until at most `max_len` are left; removes none
    /// when there are no more than that.
    pub fn trim(&mut self, max_len: usize)
        ensures
            final(self)@ == trimmed_history(old(self)@, max_len as nat),
    {
        let n = self.history.len();
        if max_len < n {
            let kept = self.history.split_off(n - max_len);
            self.history = kept;
            assert(self@ =~= old(self)@.subrange(n - max_len, n as int));
        }
    }

    /// Cuts the history back to its newest `TO_DRAIN` records.
    pub fn drain(&mut self)
        ensures
            final(self)@ == trimmed_history(old(self)@, TO_DRAIN as nat),
            final(self)@.len() <= TO_DRAIN,
    {
        self.trim(TO_DRAIN);
    }

    /// The text written to a newly joined client: every record, oldest first,
    /// then the start line.
    pub fn replay_block(&self) -> (r: String)
        ensures
            r@ == concat_all(self@) + START_CHATTING@,
    {
        let mut out = String::new();
        let n = self.history.len();
        let mut i: usize = 0;
        while i < n
            invariant
                n == self@.len(),
                i <= n,
                out@ == concat_all(self@.take(i as int)),
            decreases n - i,
        {
            out.append(self.history[i].as_str());
            assert(self@.take(i + 1).drop_last() =~= self@.take(i as int));
            i = i + 1;
        }
        assert(self@.take(n as int) =~= self@);
        out.append(START_CHATTING);
        out
    }

    /// Restores the history from lines of the server log given newest first:
    /// keeps the newest `TO_DRAIN` lines that record a chat message, strips their
    /// log prefix, terminates them and puts them back in chronological order.
    pub fn from_log_lines(lines: &Vec<String>) -> (r: ChatHistory)
        ensures
            r@ == history_from_log(views(lines@)),
    {
        let ghost all = views(lines@);
        let marker = chars_of(LOG_MESSAGE_MARKER);
        let n = lines.len();
        let mut found: Vec<String> = Vec::new();
        let mut i: usize = 0;
        assert(all.take(0) =~= Seq::<Seq<char>>::empty());
        while i < n && found.len() < TO_DRAIN
            invariant
                n == lines.len(),
                all == views(lines@),
                marker@ == LOG_MESSAGE_MARKER@,
                i <= n,
                found.len() <= TO_DRAIN,
                views(found@) == newest_records(all.take(i as int)),
            decreases n - i,
        {
            let line = lines[i].as_str();
            let cs = chars_of(line);
            assert(all.take(i + 1).drop_last() =~= all.take(i as int));
            assert(all.take(i + 1).last() == line@);
            if LOG_PREFIX_LEN <= cs.len() && contains_chars(&cs, &marker) {
                let mut record = line.substring_char(LOG_PREFIX_LEN, cs.len()).to_owned();
                record.append(LINE_END);
                found.push(record);
                assert(views(found@) =~= newest_records(all.take(i as int)).push(
                    record_of_line(line@),
                ));
            } else {
                assert(views(found@) =~= newest_records(all.take(i as int)));
            }
            i = i + 1;
        }
        proof {
            lemma_newest_records_prefix(all, i as int);
            if i == n {
                assert(all.take(i as int) =~= all);
            }
        }
        let ghost kept = views(found@);
        let mut history: std::collections::VecDeque<String> = std::collections::VecDeque::new();
        let mut k: usize = found.len();
        while k > 0
            invariant
                k <= found.len(),
                kept == views(found@),
                views(history@) == kept.reverse().take(found.len() - k),
            decreases k,
        {
            k = k - 1;
            let ghost prev = views(history@);
            history.push_back(found[k].clone());
            assert(kept.len() == found.len());
            assert(views(history@) =~= prev.push(kept[k as int]));
            assert(kept.reverse()[found.len() - 1 - k] == kept[k as int]);
            assert(views(history@) =~= kept.reverse().take(found.len() - k));
        }
        assert(kept.reverse().take(found.len() as int) =~= kept.reverse());
        let r = ChatHistory { history };
        proof {
            let rec = newest_records(all);
            if rec.len() > TO_DRAIN {
                assert(kept =~= rec.take(TO_DRAIN as int));
            } else {
                assert(kept =~= rec);
            }
        }
        r
    }
}

} // verus!
