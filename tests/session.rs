use neor::session::{DriverError, Session};

#[test]
fn tokens_strictly_increase() {
    let mut s = Session::new("test");
    let a = s.connection().unwrap();
    let b = s.connection().unwrap();
    let c = s.connection().unwrap();
    assert_eq!((a.token, b.token, c.token), (0, 1, 2));
    s.release(b.token, false);
    let d = s.connection().unwrap();
    assert_eq!(d.token, 3);
}

#[test]
fn broken_session_refuses_connections() {
    let mut s = Session::new("test");
    let a = s.connection().unwrap();
    assert!(s.accepts(a.token));
    s.mark_broken();
    assert!(s.is_broken());
    assert!(!s.accepts(a.token));
    assert_eq!(s.connection().err(), Some(DriverError::ConnectionBroken));
    assert_eq!(s.connection().err(), Some(DriverError::ConnectionBroken));
}

#[test]
fn open_changefeed_locks_the_session() {
    let mut s = Session::new("test");
    let a = s.connection().unwrap();
    s.mark_change_feed(a.token);
    assert_eq!(s.connection().err(), Some(DriverError::ConnectionLocked));
    assert_eq!(s.release(a.token, false).as_deref(), Some("[3]"));
    assert!(!s.is_change_feed());
    assert_eq!(s.connection().unwrap().token, 1);
}

#[test]
fn stale_tokens_are_not_accepted() {
    let mut s = Session::new("test");
    let a = s.connection().unwrap();
    assert!(s.accepts(a.token));
    assert!(!s.accepts(a.token + 1));
    assert_eq!(s.release(a.token, false), None);
    assert!(!s.accepts(a.token));
}

#[test]
fn use_changes_the_default_database() {
    let mut s = Session::new("test");
    assert_eq!(s.db(), "test");
    s.use_("simbad");
    assert_eq!(s.db(), "simbad");
}

#[test]
fn connection_defaults() {
    let c = neor::r.connection();
    assert_eq!((c.host.as_str(), c.port, c.db.as_str()), ("localhost", 28015, "test"));
    assert_eq!((c.user.as_str(), c.password.as_str()), ("admin", ""));
    let c = c.host("db.local").port(28016).dbname("blog").user("bob", "pw");
    assert_eq!((c.host.as_str(), c.port, c.db.as_str()), ("db.local", 28016, "blog"));
    assert_eq!((c.user.as_str(), c.password.as_str()), ("bob", "pw"));
}

#[test]
fn closing_a_changefeed_connection_sends_stop() {
    let mut s = Session::new("test");
    let mut feed = s.connection().unwrap();
    s.mark_change_feed(feed.token);
    assert_eq!(feed.close(&s, false).as_deref(), Some(r#"[3,{"noreply":false}]"#));
    assert!(feed.closed);
    assert!(s.is_change_feed());
    s.stop_answered(feed.token, false);
    assert!(s.is_change_feed());
    s.stop_answered(feed.token, true);
    assert!(!s.is_change_feed());
}

#[test]
fn closing_an_ordinary_connection_sends_nothing() {
    let mut s = Session::new("test");
    let mut c = s.connection().unwrap();
    assert_eq!(c.close(&s, false), None);
    assert!(!c.closed);
}

#[test]
fn new_connections_are_not_closed() {
    let mut s = Session::new("test");
    assert!(!s.connection().unwrap().closed);
}

#[test]
fn closing_the_session_stops_the_open_feed() {
    let mut s = Session::new("test");
    assert_eq!(s.close_feed(true), None);
    let _other = s.connection().unwrap();
    let feed = s.connection().unwrap();
    s.mark_change_feed(feed.token);
    assert_eq!(s.close_feed(true), Some((feed.token, "[3]".to_string())));
    assert!(s.holds_feed(feed.token));
    assert!(!s.holds_feed(feed.token + 1));
}

#[test]
fn dropping_an_open_query_sends_stop() {
    let mut s = Session::new("test");
    let a = s.connection().unwrap();
    let b = s.connection().unwrap();
    assert_eq!(s.release(a.token, true).as_deref(), Some("[3]"));
    assert!(!s.accepts(a.token));
    assert!(s.accepts(b.token));
}

#[test]
fn dropping_another_connection_keeps_the_feed() {
    let mut s = Session::new("test");
    let other = s.connection().unwrap();
    let feed = s.connection().unwrap();
    s.mark_change_feed(feed.token);
    assert_eq!(s.release(other.token, false), None);
    assert!(s.is_change_feed());
    assert_eq!(s.release(feed.token, false).as_deref(), Some("[3]"));
    assert!(!s.is_change_feed());
}
