use session_manager::device::{AuthMethod, Device, PrivateKey};
use session_manager::error::{Error, ErrorKind};
use session_manager::handshake::{
    AuthRequest, Authenticating, ConnectError, Connecting, Connection, KexAlgorithm, KeyAlgorithm,
    Negotiated, Preferred, SignatureHash, TransportFailure, CONNECTION_TIMEOUT_SECS,
};
use session_manager::ident::ConnectionId;
use session_manager::manager::SessionManager;

fn tv() -> Device {
    Device {
        name: "tv1".to_string(),
        host: "192.168.1.20".to_string(),
        port: 9922,
        username: "prisoner".to_string(),
        password: None,
        private_key: None,
        passphrase: None,
        new: false,
    }
}

fn failure(failure: TransportFailure) -> ConnectError {
    ConnectError { failure, message: format!("{:?}", failure) }
}

fn legacy() -> Preferred {
    Preferred {
        key: vec![
            KeyAlgorithm::SshRsa,
            KeyAlgorithm::RsaSha512,
            KeyAlgorithm::RsaSha256,
            KeyAlgorithm::Ed25519,
        ],
        kex: vec![
            KexAlgorithm::DhGroup14Sha1,
            KexAlgorithm::DhGroup1Sha1,
            KexAlgorithm::DhGroup14Sha256,
            KexAlgorithm::Curve25519,
        ],
    }
}

#[test]
fn the_first_attempt_offers_the_modern_algorithms() {
    let (start, request) = SessionManager::conn_new(tv());
    assert!(!start.legacy);
    assert_eq!(start.device, tv());
    assert_eq!(request.id, start.id);
    assert_eq!(request.key, "tv1");
    assert_eq!(request.host, "192.168.1.20");
    assert_eq!(request.port, 9922);
    assert_eq!(request.timeout_secs, 3);
    assert_eq!(request.preferred, None);
}

#[test]
fn the_connection_timeout_is_three_seconds() {
    assert_eq!(CONNECTION_TIMEOUT_SECS, 3);
}

#[test]
fn try_conn_builds_the_legacy_attempt() {
    let id = ConnectionId { value: 42 };
    let request = SessionManager::try_conn(&id, &tv(), true);
    assert_eq!(request.id, id);
    assert_eq!(request.key, "tv1");
    assert_eq!(request.host, "192.168.1.20");
    assert_eq!(request.port, 9922);
    assert_eq!(request.timeout_secs, 3);
    assert_eq!(request.preferred, Some(legacy()));
}

#[test]
fn try_conn_builds_the_modern_attempt() {
    let id = ConnectionId { value: 42 };
    let request = SessionManager::try_conn(&id, &tv(), false);
    assert_eq!(request.id, id);
    assert_eq!(request.preferred, None);
}

#[test]
fn connection_identities_are_random_uuids() {
    let first = ConnectionId::generate();
    let second = ConnectionId::generate();
    assert_ne!(first, second);
    for id in [first, second] {
        assert_eq!((id.value >> 76) & 0xF, 4);
        assert_eq!((id.value >> 62) & 0x3, 2);
    }
}

#[test]
fn every_algorithm_mismatch_falls_back_to_legacy_once() {
    for kind in [
        TransportFailure::KexInit,
        TransportFailure::NoCommonKexAlgo,
        TransportFailure::NoCommonKeyAlgo,
        TransportFailure::NoCommonCipher,
    ] {
        let (start, _) = SessionManager::conn_new(tv());
        let id = start.id;
        let again = match start.resolve(Err(failure(kind))) {
            Negotiated::Legacy(again, request) => {
                assert_eq!(again, Connecting { id, device: tv(), legacy: true });
                assert_eq!(request.id, id);
                assert_eq!(request.preferred, Some(legacy()));
                again
            }
            other => panic!("unexpected {:?}", other),
        };
        assert_eq!(
            again.resolve(Err(failure(kind))),
            Negotiated::Failed(Error { kind: ErrorKind::IO, message: format!("{:?}", kind) })
        );
    }
}

#[test]
fn any_other_failure_ends_the_handshake_at_once() {
    let (start, _) = SessionManager::conn_new(tv());
    let refused = ConnectError {
        failure: TransportFailure::Other,
        message: "Connection refused".to_string(),
    };
    assert_eq!(
        start.resolve(Err(refused)),
        Negotiated::Failed(Error { kind: ErrorKind::IO, message: "Connection refused".to_string() })
    );
}

#[test]
fn the_legacy_attempt_can_succeed() {
    let (start, _) = SessionManager::conn_new(tv());
    let id = start.id;
    let again = match start.resolve(Err(failure(TransportFailure::NoCommonKexAlgo))) {
        Negotiated::Legacy(again, _) => again,
        other => panic!("unexpected {:?}", other),
    };
    match again.resolve(Ok(Some(SignatureHash::Sha1))) {
        Negotiated::Authenticate(pending, request) => {
            assert_eq!(pending, Authenticating { id, device: tv() });
            assert_eq!(request, AuthRequest::Unauthenticated { username: "prisoner".to_string() });
        }
        other => panic!("unexpected {:?}", other),
    }
}

#[test]
fn a_private_key_precedes_a_password() {
    let mut device = tv();
    device.private_key = Some(PrivateKey { data: "KEY".to_string() });
    device.passphrase = Some("phrase".to_string());
    device.password = Some("secret".to_string());
    assert_eq!(device.select_auth_method(), AuthMethod::PublicKey);
    assert_eq!(
        Authenticating::request(&device, Some(SignatureHash::Sha512)),
        AuthRequest::PublicKey {
            username: "prisoner".to_string(),
            key: PrivateKey { data: "KEY".to_string() },
            passphrase: Some("phrase".to_string()),
            signature: Some(SignatureHash::Sha512),
        }
    );
}

#[test]
fn a_password_precedes_no_credential() {
    let mut device = tv();
    device.password = Some("secret".to_string());
    device.passphrase = Some("unused".to_string());
    assert_eq!(device.select_auth_method(), AuthMethod::Password);
    assert_eq!(
        Authenticating::request(&device, Some(SignatureHash::Sha256)),
        AuthRequest::Password {
            username: "prisoner".to_string(),
            password: "secret".to_string(),
        }
    );
}

#[test]
fn without_credentials_the_login_is_unauthenticated() {
    let device = tv();
    assert_eq!(device.select_auth_method(), AuthMethod::Unauthenticated);
    assert_eq!(
        Authenticating::request(&device, None),
        AuthRequest::Unauthenticated { username: "prisoner".to_string() }
    );
}

#[test]
fn an_accepted_login_gives_the_connection() {
    let pending = Authenticating { id: ConnectionId { value: 5 }, device: tv() };
    assert_eq!(
        pending.resolve(Ok(true)),
        Ok(Connection { id: ConnectionId { value: 5 }, device: tv() })
    );
}

#[test]
fn a_refusal_names_the_method() {
    let mut with_key = tv();
    with_key.private_key = Some(PrivateKey { data: "KEY".to_string() });
    with_key.password = Some("secret".to_string());
    let mut with_password = tv();
    with_password.password = Some("secret".to_string());
    let cases = [
        (with_key, "Device refused pubkey authorization"),
        (with_password, "Device refused password authorization"),
        (tv(), "Device refused authorization"),
    ];
    for (device, message) in cases {
        let pending = Authenticating { id: ConnectionId { value: 5 }, device };
        assert_eq!(
            pending.resolve(Ok(false)),
            Err(Error { kind: ErrorKind::Authorization, message: message.to_string() })
        );
    }
}

#[test]
fn a_failure_to_authenticate_is_handed_on() {
    let pending = Authenticating { id: ConnectionId { value: 5 }, device: tv() };
    let broken = Error { kind: ErrorKind::IO, message: "broken pipe".to_string() };
    assert_eq!(pending.resolve(Err(broken.clone())), Err(broken));
}

#[test]
fn only_the_four_mismatches_call_for_legacy() {
    assert!(TransportFailure::KexInit.is_algorithm_mismatch());
    assert!(TransportFailure::NoCommonKexAlgo.is_algorithm_mismatch());
    assert!(TransportFailure::NoCommonKeyAlgo.is_algorithm_mismatch());
    assert!(TransportFailure::NoCommonCipher.is_algorithm_mismatch());
    assert!(!TransportFailure::Other.is_algorithm_mismatch());
}
