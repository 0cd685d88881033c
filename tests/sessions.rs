use chat_server::cache::{ChatHistory, ClientCache, START_CHATTING};
use chat_server::config::{get_config, Profile as ConfigProfile};
use chat_server::error::IoError;
use chat_server::host::get_host;
use chat_server::profiles::{get_active_profile, get_log_file, Profile};
use chat_server::session::{check_password, is_valid_nickname, Session, SessionOutput, SessionState};
use chat_server::user_cache::new_cache;

fn joined(id: &str, nick: &str, registry: &mut ClientCache, history: &mut ChatHistory) -> Session {
    let mut s = Session::new(id.to_string(), None);
    s.start();
    s.on_line(&format!("{}\n", nick), registry, history);
    assert_eq!(s.state, SessionState::Active);
    s
}

#[test]
fn nickname_length_bounds() {
    assert!(!is_valid_nickname("ab"));
    assert!(is_valid_nickname("abc"));
    assert!(is_valid_nickname(&"x".repeat(32)));
    assert!(!is_valid_nickname(&"x".repeat(33)));
    assert!(!is_valid_nickname(""));
}

#[test]
fn short_nickname_is_refused() {
    let mut reg = ClientCache::new_cache();
    let mut h = ChatHistory::empty_chat_history();
    let mut s = Session::new("c1".to_string(), None);
    assert_eq!(s.start(), SessionOutput::Write("Enter nickname: ".to_string()));
    assert_eq!(s.on_line("ab\r\n", &mut reg, &mut h), SessionOutput::Close);
    assert_eq!(s.state, SessionState::Closed);
    assert_eq!(reg.get(&"c1".to_string()), None);
}

#[test]
fn long_nickname_is_refused() {
    let mut reg = ClientCache::new_cache();
    let mut h = ChatHistory::empty_chat_history();
    let mut s = Session::new("c1".to_string(), None);
    s.start();
    assert_eq!(s.on_line(&"y".repeat(33), &mut reg, &mut h), SessionOutput::Close);
    assert_eq!(reg.get(&"c1".to_string()), None);
}

#[test]
fn valid_nickname_joins_with_history_replay() {
    let mut reg = ClientCache::new_cache();
    let mut h = ChatHistory::empty_chat_history();
    h.insert("old\r\n".to_string());
    let mut s = Session::new("c1".to_string(), None);
    s.start();
    let out = s.on_line("  abc \n", &mut reg, &mut h);
    assert_eq!(out, SessionOutput::Welcome(format!("old\r\n{}", START_CHATTING)));
    assert_eq!(s.state, SessionState::Active);
    assert_eq!(reg.get(&"c1".to_string()), Some("abc".to_string()));
}

#[test]
fn wrong_password_closes_without_registering() {
    let mut reg = ClientCache::new_cache();
    let mut h = ChatHistory::empty_chat_history();
    let mut s = Session::new("c1".to_string(), Some("abc12".to_string()));
    assert_eq!(s.start(), SessionOutput::Write("Enter password: ".to_string()));
    assert_eq!(s.on_line("wrong\n", &mut reg, &mut h), SessionOutput::Close);
    assert_eq!(s.state, SessionState::Closed);
    assert_eq!(reg.get(&"c1".to_string()), None);
    assert_eq!(s.on_line("alice\n", &mut reg, &mut h), SessionOutput::Nothing);
    assert_eq!(reg.get(&"c1".to_string()), None);
}

#[test]
fn right_password_leads_to_naming() {
    let mut reg = ClientCache::new_cache();
    let mut h = ChatHistory::empty_chat_history();
    let mut s = Session::new("c1".to_string(), Some("abc12".to_string()));
    s.start();
    assert_eq!(
        s.on_line(" abc12\r\n", &mut reg, &mut h),
        SessionOutput::Write("Enter nickname: ".to_string())
    );
    assert_eq!(s.state, SessionState::NamingHandshake);
}

#[test]
fn active_line_is_stored_and_published() {
    let mut reg = ClientCache::new_cache();
    let mut h = ChatHistory::empty_chat_history();
    let mut a = joined("a", "alice", &mut reg, &mut h);
    match a.on_line(" hello \n", &mut reg, &mut h) {
        SessionOutput::Publish(r) => {
            assert!(r.ends_with("| [alice]: hello\r\n"));
            assert_eq!(h.history.len(), 1);
            assert_eq!(h.history[0], r);
        }
        other => panic!("unexpected output {:?}", other),
    }
    assert_eq!(a.on_line("   \r\n", &mut reg, &mut h), SessionOutput::Nothing);
    assert_eq!(h.history.len(), 1);
}

#[test]
fn broadcast_skips_its_origin() {
    let mut reg = ClientCache::new_cache();
    let mut h = ChatHistory::empty_chat_history();
    let mut a = joined("a", "alice", &mut reg, &mut h);
    let b = joined("b", "bob", &mut reg, &mut h);
    let record = match a.on_line("hi", &mut reg, &mut h) {
        SessionOutput::Publish(r) => r,
        other => panic!("unexpected output {:?}", other),
    };
    let origin = a.id.clone();
    assert_eq!(a.on_broadcast(&record, &origin), SessionOutput::Nothing);
    assert_eq!(b.on_broadcast(&record, &origin), SessionOutput::Write(record.clone()));
}

#[test]
fn broadcast_before_joining_is_not_written() {
    let mut s = Session::new("c".to_string(), None);
    s.start();
    assert_eq!(s.on_broadcast("x", &"other".to_string()), SessionOutput::Nothing);
}

#[test]
fn read_failure_deregisters() {
    let mut reg = ClientCache::new_cache();
    let mut h = ChatHistory::empty_chat_history();
    let mut a = joined("a", "alice", &mut reg, &mut h);
    let _b = joined("b", "bob", &mut reg, &mut h);
    assert_eq!(a.on_read_failed(&mut reg), SessionOutput::Close);
    assert_eq!(a.state, SessionState::Closed);
    assert_eq!(reg.get(&"a".to_string()), None);
    assert_eq!(reg.get(&"b".to_string()), Some("bob".to_string()));
}

#[test]
fn read_failure_during_handshake_touches_nothing() {
    let mut reg = ClientCache::new_cache();
    reg.insert("a".to_string(), "alice".to_string());
    let mut s = Session::new("a".to_string(), None);
    s.start();
    assert_eq!(s.on_read_failed(&mut reg), SessionOutput::Close);
    assert_eq!(reg.get(&"a".to_string()), Some("alice".to_string()));
}

#[test]
fn start_happens_once() {
    let mut s = Session::new("c".to_string(), None);
    s.start();
    assert_eq!(s.start(), SessionOutput::Nothing);
    assert_eq!(s.state, SessionState::NamingHandshake);
}

#[test]
fn settings() {
    let c = get_config();
    assert_eq!(c.profile, ConfigProfile::Dev);
    assert_eq!(c.password, None);
    assert_eq!(c.host, "localhost:8081");
    assert_eq!(c.log_file, Some("./log/chat-server.log".to_string()));
    assert_eq!(get_host(true), "localhost:8080");
    assert_eq!(get_host(false), "0.0.0.0:8080");
    assert_eq!(get_active_profile(true), Profile::Dev);
    assert_eq!(get_active_profile(false), Profile::Release);
    assert_eq!(get_log_file(), "./log/chat-server.log");
    assert_eq!(IoError::CouldNotWrite.message(), "IO error. User disconnected.");
    assert_eq!(new_cache().clients.len(), 0);
}

#[test]
fn password_is_compared_after_trimming() {
    assert!(check_password("abc12", "abc12\r\n"));
    assert!(check_password("abc12", "  abc12"));
    assert!(!check_password("abc12", "wrong\n"));
    assert!(!check_password("abc12", "abc1"));
    assert!(!check_password("abc12", "abc 12"));
}
