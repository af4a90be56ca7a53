use minikv::protocol::{Command, Response};
use minikv::session::{Action, CloseKind, ConnState, Fault, ReadEvent, Session};
use minikv::store::Store;

fn put(key: &str, value: &[u8]) -> ReadEvent {
    ReadEvent::Command(Command::Put { key: key.to_string(), value: value.to_vec() })
}

fn get(key: &str) -> ReadEvent {
    ReadEvent::Command(Command::Get { key: key.to_string() })
}

fn serving_session() -> Session {
    let mut s = Session::new();
    s.start();
    s
}

fn ok_response() -> Action {
    Action::Write(Response::Simple("OK".to_string()))
}

#[test]
fn put_then_get_returns_value() {
    let mut store = Store::new();
    let mut sess = serving_session();

    let a = sess.on_read(&mut store, put("x", b"1"));
    assert_eq!(a, ok_response());
    assert_eq!(sess.state, ConnState::Serving);
    sess.on_write(true);

    let b = sess.on_read(&mut store, get("x"));
    assert_eq!(b, Action::Write(Response::Bulk(b"1".to_vec())));
    assert_eq!(sess.state, ConnState::Serving);
}

#[test]
fn put_visible_on_another_connection() {
    let mut store = Store::new();
    let mut writer = serving_session();
    let mut reader = serving_session();

    assert_eq!(writer.on_read(&mut store, put("k", b"shared")), ok_response());
    let b = reader.on_read(&mut store, get("k"));
    assert_eq!(b, Action::Write(Response::Bulk(b"shared".to_vec())));
}

#[test]
fn get_on_empty_store_is_null() {
    let mut store = Store::new();
    let mut sess = serving_session();

    let a = sess.on_read(&mut store, get("missing"));
    assert_eq!(a, Action::Write(Response::Null));
    assert_eq!(sess.state, ConnState::Serving);
}

#[test]
fn get_on_key_never_written_is_null() {
    let mut store = Store::new();
    let mut sess = serving_session();

    assert_eq!(sess.on_read(&mut store, put("a", b"1")), ok_response());
    assert_eq!(sess.on_read(&mut store, put("b", b"2")), ok_response());
    let a = sess.on_read(&mut store, get("c"));
    assert_eq!(a, Action::Write(Response::Null));
}

#[test]
fn put_twice_same_observable_state_as_once() {
    let mut once = Store::new();
    let mut twice = Store::new();
    let mut s1 = serving_session();
    let mut s2 = serving_session();

    assert_eq!(s1.on_read(&mut once, put("k", b"v")), ok_response());

    assert_eq!(s2.on_read(&mut twice, put("k", b"v")), ok_response());
    assert_eq!(s2.on_read(&mut twice, put("k", b"v")), ok_response());

    assert_eq!(
        s1.on_read(&mut once, get("k")),
        s2.on_read(&mut twice, get("k"))
    );
    assert_eq!(once.get(&"k".to_string()), Some(b"v".to_vec()));
    assert_eq!(twice.get(&"k".to_string()), Some(b"v".to_vec()));
}

#[test]
fn contending_puts_last_to_lock_wins_either_order() {
    // Two clients race a Put on "x"; the lock serializes them in one of two
    // orders. Both are acknowledged, and a third client reads exactly the
    // later value, never a mixture.
    for (first, second) in [(b"A", b"B"), (b"B", b"A")] {
        let mut store = Store::new();
        let mut client1 = serving_session();
        let mut client2 = serving_session();
        let mut observer = serving_session();

        assert_eq!(client1.on_read(&mut store, put("x", first)), ok_response());
        assert_eq!(client2.on_read(&mut store, put("x", second)), ok_response());

        let seen = observer.on_read(&mut store, get("x"));
        assert_eq!(seen, Action::Write(Response::Bulk(second.to_vec())));
        assert!(
            seen == Action::Write(Response::Bulk(b"A".to_vec()))
                || seen == Action::Write(Response::Bulk(b"B".to_vec()))
        );
    }
}

#[test]
fn framing_fault_isolated_to_its_connection() {
    let mut store = Store::new();
    let mut healthy = serving_session();
    let mut faulty = serving_session();

    assert_eq!(healthy.on_read(&mut store, put("x", b"1")), ok_response());

    // A malformed frame arrives on the other connection mid-stream.
    let a = faulty.on_read(&mut store, ReadEvent::FramingFault);
    assert_eq!(a, Action::Stop);
    assert_eq!(faulty.state, ConnState::Closed(CloseKind::Faulted(Fault::Framing)));

    // The store and the healthy connection are unaffected.
    assert_eq!(
        healthy.on_read(&mut store, get("x")),
        Action::Write(Response::Bulk(b"1".to_vec()))
    );
    assert_eq!(healthy.state, ConnState::Serving);
}

#[test]
fn io_fault_isolated_to_its_connection() {
    let mut store = Store::new();
    let mut healthy = serving_session();
    let mut faulty = serving_session();

    assert_eq!(healthy.on_read(&mut store, put("x", b"1")), ok_response());

    let a = faulty.on_read(&mut store, ReadEvent::IoFault);
    assert_eq!(a, Action::Stop);
    assert_eq!(faulty.state, ConnState::Closed(CloseKind::Faulted(Fault::Io)));

    assert_eq!(
        healthy.on_read(&mut store, get("x")),
        Action::Write(Response::Bulk(b"1".to_vec()))
    );
}

#[test]
fn end_of_stream_closes_cleanly() {
    let mut store = Store::new();
    let mut sess = serving_session();

    let a = sess.on_read(&mut store, ReadEvent::EndOfStream);
    assert_eq!(a, Action::Stop);
    assert_eq!(sess.state, ConnState::Closed(CloseKind::Clean));
}

#[test]
fn unhandled_command_faults_only_its_connection() {
    let mut store = Store::new();
    let mut sess = serving_session();
    let mut other = serving_session();

    assert_eq!(sess.on_read(&mut store, put("x", b"1")), ok_response());

    let a = sess.on_read(&mut store, ReadEvent::Command(Command::Other));
    assert_eq!(a, Action::Stop);
    assert_eq!(
        sess.state,
        ConnState::Closed(CloseKind::Faulted(Fault::UnimplementedCommand))
    );

    // No response frame was owed, and the store kept its contents.
    assert_eq!(
        other.on_read(&mut store, get("x")),
        Action::Write(Response::Bulk(b"1".to_vec()))
    );
}

#[test]
fn failed_write_closes_with_io_fault() {
    let mut store = Store::new();
    let mut sess = serving_session();

    assert_eq!(sess.on_read(&mut store, put("x", b"1")), ok_response());
    sess.on_write(false);
    assert_eq!(sess.state, ConnState::Closed(CloseKind::Faulted(Fault::Io)));

    // The mutation stays applied exactly once: no retry, no rollback.
    assert_eq!(store.get(&"x".to_string()), Some(b"1".to_vec()));
}

#[test]
fn session_lifecycle_accepted_then_serving() {
    let mut sess = Session::new();
    assert_eq!(sess.state, ConnState::Accepted);
    sess.start();
    assert_eq!(sess.state, ConnState::Serving);
}
