use session_manager::device::Device;
use session_manager::error::{Error, ErrorKind};
use session_manager::handshake::{Authenticating, Connection, Negotiated};
use session_manager::ident::ConnectionId;
use session_manager::manager::{Acquire, Attempt, SessionManager};

fn device(name: &str, new: bool) -> Device {
    Device {
        name: name.to_string(),
        host: "192.168.1.20".to_string(),
        port: 22,
        username: "root".to_string(),
        password: None,
        private_key: None,
        passphrase: None,
        new,
    }
}

fn connection(value: u128, device: &Device) -> Connection {
    Connection { id: ConnectionId { value }, device: device.clone() }
}

fn dead() -> Error {
    Error { kind: ErrorKind::NeedsReconnect, message: "connection lost".to_string() }
}

/// Establishes a connection to `device` the way an operation does, with a
/// peer that accepts everything, and counts the acquisitions in `acquired`.
fn obtain(manager: &mut SessionManager, device: &Device, acquired: &mut u32) -> Connection {
    *acquired += 1;
    match manager.conn_obtain(device) {
        Acquire::Reuse(conn) => conn,
        Acquire::Create { pooled } => {
            let (start, _request) = SessionManager::conn_new(device.clone());
            let outcome = match start.resolve(Ok(None)) {
                Negotiated::Authenticate(pending, _request) => pending.resolve(Ok(true)),
                other => panic!("unexpected {:?}", other),
            };
            manager.conn_finish(pooled, outcome).unwrap()
        }
        Acquire::Wait => panic!("nothing is being created"),
    }
}

#[test]
fn a_new_manager_creates_a_pooled_connection() {
    let mut manager = SessionManager::new();
    let tv = device("tv1", false);
    assert_eq!(manager.conn_obtain(&tv), Acquire::Create { pooled: true });
}

#[test]
fn a_pooled_connection_is_reused() {
    let mut manager = SessionManager::new();
    let tv = device("tv1", false);
    let mut acquired = 0;
    let first = obtain(&mut manager, &tv, &mut acquired);
    let second = obtain(&mut manager, &tv, &mut acquired);
    assert_eq!(first.id, second.id);
    assert_eq!(first, second);
    assert_eq!(acquired, 2);
}

#[test]
fn the_pool_is_keyed_by_name_alone() {
    let mut manager = SessionManager::new();
    let tv = device("tv1", false);
    let mut acquired = 0;
    let first = obtain(&mut manager, &tv, &mut acquired);
    let mut moved = device("tv1", false);
    moved.host = "10.0.0.9".to_string();
    moved.port = 2222;
    assert_eq!(manager.conn_obtain(&moved), Acquire::Reuse(first));
}

#[test]
fn a_second_creation_waits_for_the_first() {
    let mut manager = SessionManager::new();
    let tv = device("tv1", false);
    let other = device("tv2", false);
    assert_eq!(manager.conn_obtain(&tv), Acquire::Create { pooled: true });
    assert_eq!(manager.conn_obtain(&tv), Acquire::Wait);
    assert_eq!(manager.conn_obtain(&other), Acquire::Wait);
    let made = connection(7, &tv);
    assert_eq!(manager.conn_finish(true, Ok(made.clone())), Ok(made.clone()));
    assert_eq!(manager.conn_obtain(&tv), Acquire::Reuse(made));
    assert_eq!(manager.conn_obtain(&other), Acquire::Create { pooled: true });
}

#[test]
fn a_failed_creation_frees_the_way() {
    let mut manager = SessionManager::new();
    let tv = device("tv1", false);
    assert_eq!(manager.conn_obtain(&tv), Acquire::Create { pooled: true });
    let refused = Error { kind: ErrorKind::Authorization, message: "no".to_string() };
    assert_eq!(manager.conn_finish(true, Err(refused.clone())), Err(refused));
    assert_eq!(manager.conn_obtain(&tv), Acquire::Create { pooled: true });
}

#[test]
fn a_new_device_never_reuses_a_connection() {
    let mut manager = SessionManager::new();
    let pooled = device("tv1", false);
    let probe = device("tv1", true);
    let mut acquired = 0;
    let kept = obtain(&mut manager, &pooled, &mut acquired);
    assert_eq!(manager.conn_obtain(&probe), Acquire::Create { pooled: false });
    let first = obtain(&mut manager, &probe, &mut acquired);
    let second = obtain(&mut manager, &probe, &mut acquired);
    assert_ne!(first.id, kept.id);
    assert_ne!(second.id, kept.id);
    assert_ne!(first.id, second.id);
    assert_eq!(manager.conn_obtain(&pooled), Acquire::Reuse(kept));
}

#[test]
fn a_new_device_does_not_wait_for_a_creation() {
    let mut manager = SessionManager::new();
    let tv = device("tv1", false);
    let probe = device("tv1", true);
    assert_eq!(manager.conn_obtain(&tv), Acquire::Create { pooled: true });
    assert_eq!(manager.conn_obtain(&probe), Acquire::Create { pooled: false });
    let made = connection(3, &probe);
    assert_eq!(manager.conn_finish(false, Ok(made.clone())), Ok(made));
    assert_eq!(manager.conn_obtain(&tv), Acquire::Wait);
}

#[test]
fn eviction_checks_the_identity() {
    let mut manager = SessionManager::new();
    let tv = device("tv1", false);
    let made = connection(7, &tv);
    manager.conn_obtain(&tv);
    manager.conn_finish(true, Ok(made.clone())).unwrap();
    assert!(!manager.conn_evict("tv1", ConnectionId { value: 8 }));
    assert!(!manager.conn_evict("tv2", ConnectionId { value: 7 }));
    assert_eq!(manager.conn_obtain(&tv), Acquire::Reuse(made));
    assert!(manager.conn_evict("tv1", ConnectionId { value: 7 }));
    assert!(!manager.conn_evict("tv1", ConnectionId { value: 7 }));
    assert_eq!(manager.conn_obtain(&tv), Acquire::Create { pooled: true });
}

#[test]
fn exec_returns_the_output() {
    let mut manager = SessionManager::new();
    let tv = device("tv1", false);
    let mut acquired = 0;
    let conn = obtain(&mut manager, &tv, &mut acquired);
    assert_eq!(manager.exec(&conn, Ok(b"ok".to_vec())), Attempt::Done(Ok(b"ok".to_vec())));
    assert_eq!(manager.conn_obtain(&tv), Acquire::Reuse(conn));
}

#[test]
fn exec_hands_other_errors_on() {
    let mut manager = SessionManager::new();
    let tv = device("tv1", false);
    let mut acquired = 0;
    let conn = obtain(&mut manager, &tv, &mut acquired);
    for kind in [
        ErrorKind::Authorization,
        ErrorKind::NegativeReply,
        ErrorKind::NotFound,
        ErrorKind::Disconnected,
        ErrorKind::Unsupported,
        ErrorKind::IO,
    ] {
        let error = Error { kind, message: "failed".to_string() };
        assert_eq!(manager.exec(&conn, Err(error.clone())), Attempt::Done(Err(error)));
        assert_eq!(manager.conn_obtain(&tv), Acquire::Reuse(conn.clone()));
    }
}

#[test]
fn exec_retries_once_after_a_dead_connection() {
    let mut manager = SessionManager::new();
    let tv = device("tv1", false);
    let mut acquired = 0;
    let stale = obtain(&mut manager, &tv, &mut acquired);
    acquired = 0;

    let mut outcomes = vec![Ok(b"hi\n".to_vec()), Err(dead())];
    let mut used = Vec::new();
    let result = loop {
        let conn = obtain(&mut manager, &tv, &mut acquired);
        used.push(conn.id);
        match manager.exec(&conn, outcomes.pop().unwrap()) {
            Attempt::Done(result) => break result,
            Attempt::Retry => continue,
        }
    };
    assert_eq!(result, Ok(b"hi\n".to_vec()));
    assert_eq!(acquired, 2);
    assert_eq!(used[0], stale.id);
    assert_ne!(used[1], stale.id);
    assert!(outcomes.is_empty());
    match manager.conn_obtain(&tv) {
        Acquire::Reuse(conn) => assert_eq!(conn.id, used[1]),
        other => panic!("unexpected {:?}", other),
    }
}

#[test]
fn exec_keeps_retrying_while_connections_die() {
    let mut manager = SessionManager::new();
    let tv = device("tv1", false);
    let mut acquired = 0;
    let mut outcomes = vec![Ok(Vec::new()), Err(dead()), Err(dead()), Err(dead())];
    let result = loop {
        let conn = obtain(&mut manager, &tv, &mut acquired);
        match manager.exec(&conn, outcomes.pop().unwrap()) {
            Attempt::Done(result) => break result,
            Attempt::Retry => continue,
        }
    };
    assert_eq!(result, Ok(Vec::new()));
    assert_eq!(acquired, 4);
}

#[test]
fn a_dead_disposable_connection_leaves_the_pool_alone() {
    let mut manager = SessionManager::new();
    let tv = device("tv1", false);
    let probe = device("tv1", true);
    let mut acquired = 0;
    let kept = obtain(&mut manager, &tv, &mut acquired);
    let disposable = obtain(&mut manager, &probe, &mut acquired);
    assert_eq!(manager.exec(&disposable, Err(dead())), Attempt::Retry);
    assert_eq!(manager.conn_obtain(&tv), Acquire::Reuse(kept));
}

#[test]
fn a_refused_password_is_not_retried() {
    let mut manager = SessionManager::new();
    let mut tv = device("tv1", false);
    tv.password = Some("secret".to_string());
    assert_eq!(manager.conn_obtain(&tv), Acquire::Create { pooled: true });
    let pending = Authenticating { id: ConnectionId { value: 1 }, device: tv.clone() };
    let outcome = manager.conn_finish(true, pending.resolve(Ok(false)));
    assert_eq!(outcome.unwrap_err().kind, ErrorKind::Authorization);
    assert_eq!(manager.conn_obtain(&tv), Acquire::Create { pooled: true });
}
