//! Establishing a connection: the transport handshake with its fallback to
//! legacy algorithms, then authentication.
//!
//! A handshake passes through two states, each a type of its own. A
//! [`Connecting`] value waits for the outcome of a transport handshake; an
//! [`Authenticating`] value waits for the peer's answer to the credentials.
//! The caller performs the request that came with the state and hands the
//! outcome to the state's `resolve`.

use vstd::prelude::*;
use crate::device::{clone_text, AuthMethod, Device, PrivateKey};
use crate::error::{Error, ErrorKind};
use crate::ident::{is_random_uuid, ConnectionId};
use crate::manager::SessionManager;

verus! {

/// A key-exchange algorithm.
#[derive(Clone, Copy, Debug, PartialEq, Eq, Structural)]
pub enum KexAlgorithm {
    /// `curve25519-sha256@libssh.org`
    Curve25519,
    /// `diffie-hellman-group1-sha1`
    DhGroup1Sha1,
    /// `diffie-hellman-group14-sha1`
    DhGroup14Sha1,
    /// `diffie-hellman-group14-sha256`
    DhGroup14Sha256,
}

/// A host-key and signature algorithm.
#[derive(Clone, Copy, Debug, PartialEq, Eq, Structural)]
pub enum KeyAlgorithm {
    /// `ssh-ed25519`
    Ed25519,
    /// `rsa-sha2-512`
    RsaSha512,
    /// `rsa-sha2-256`
    RsaSha256,
    /// `ssh-rsa`
    SshRsa,
}

/// The hash with which the server signs under an RSA key.
#[derive(Clone, Copy, Debug, PartialEq, Eq, Structural)]
pub enum SignatureHash {
    Sha256,
    Sha512,
    Sha1,
}

/// Algorithms in the order in which they are offered to the peer.
#[derive(Debug, PartialEq, Eq)]
pub struct Preferred {
    pub key: Vec<KeyAlgorithm>,
    pub kex: Vec<KexAlgorithm>,
}

/// The seconds after which an attempt to establish the transport is given up.
pub const CONNECTION_TIMEOUT_SECS: u64 = 3;

/// The host-key algorithms of the legacy set, oldest first.
pub open spec fn legacy_key_algorithms() -> Seq<KeyAlgorithm> {
    seq![
        KeyAlgorithm::SshRsa,
        KeyAlgorithm::RsaSha512,
        KeyAlgorithm::RsaSha256,
        KeyAlgorithm::Ed25519,
    ]
}

/// The key-exchange algorithms of the legacy set, oldest first.
pub open spec fn legacy_kex_algorithms() -> Seq<KexAlgorithm> {
    seq![
        KexAlgorithm::DhGroup14Sha1,
        KexAlgorithm::DhGroup1Sha1,
        KexAlgorithm::DhGroup14Sha256,
        KexAlgorithm::Curve25519,
    ]
}

/// One attempt to establish the transport session.
///
/// `preferred` is `None` for the transport's own, modern preference.
#[derive(Debug, PartialEq, Eq)]
pub struct ConnectRequest {
    pub id: ConnectionId,
    pub key: String,
    pub host: String,
    pub port: u16,
    pub timeout_secs: u64,
    pub preferred: Option<Preferred>,
}

impl ConnectRequest {
    /// Whether this is the request by which the connection `id` to `device`
    /// is attempted, with the legacy algorithms if `legacy`.
    pub open spec fn is_attempt(&self, id: ConnectionId, device: Device, legacy: bool) -> bool {
        &&& self.id == id
        &&& self.key == device.name
        &&& self.host == device.host
        &&& self.port == device.port
        &&& self.timeout_secs == CONNECTION_TIMEOUT_SECS
        &&& match self.preferred {
            Some(p) => legacy && p.key@ == legacy_key_algorithms() && p.kex@
                == legacy_kex_algorithms(),
            None => !legacy,
        }
    }
}

/// Why a transport handshake failed.
#[derive(Clone, Copy, Debug, PartialEq, Eq, Structural)]
pub enum TransportFailure {
    /// The key-exchange initialisation failed.
    KexInit,
    /// The peers share no key-exchange algorithm.
    NoCommonKexAlgo,
    /// The peers share no host-key algorithm.
    NoCommonKeyAlgo,
    /// The peers share no cipher.
    NoCommonCipher,
    /// Anything else: the peer is unreachable, the attempt timed out, ...
    Other,
}

impl TransportFailure {
    /// Whether the failure says that the peer may be too old for the modern
    /// algorithms, so that the legacy set is worth one attempt.
    pub open spec fn calls_for_legacy(&self) -> bool {
        ||| *self == TransportFailure::KexInit
        ||| *self == TransportFailure::NoCommonKexAlgo
        ||| *self == TransportFailure::NoCommonKeyAlgo
        ||| *self == TransportFailure::NoCommonCipher
    }

    /// Computes [`TransportFailure::calls_for_legacy`].
    pub fn is_algorithm_mismatch(&self) -> (b: bool)
        ensures
            b == self.calls_for_legacy(),
    {
        match self {
            TransportFailure::KexInit => true,
            TransportFailure::NoCommonKexAlgo => true,
            TransportFailure::NoCommonKeyAlgo => true,
            TransportFailure::NoCommonCipher => true,
            TransportFailure::Other => false,
        }
    }
}

/// A failed transport handshake: the failure and the transport's own words.
#[derive(Debug, PartialEq, Eq)]
pub struct ConnectError {
    pub failure: TransportFailure,
    pub message: String,
}

/// The credentials to present to the peer.
#[derive(Debug, PartialEq, Eq)]
pub enum AuthRequest {
    /// Decrypt `key` with `passphrase` for the signature hash that the server
    /// negotiated, and authenticate with it.
    PublicKey {
        username: String,
        key: PrivateKey,
        passphrase: Option<String>,
        signature: Option<SignatureHash>,
    },
    Password { username: String, password: String },
    Unauthenticated { username: String },
}

impl AuthRequest {
    /// The method that this request uses.
    pub open spec fn method(&self) -> AuthMethod {
        match self {
            AuthRequest::PublicKey { .. } => AuthMethod::PublicKey,
            AuthRequest::Password { .. } => AuthMethod::Password,
            AuthRequest::Unauthenticated { .. } => AuthMethod::Unauthenticated,
        }
    }
}

/// The credentials that `device` presents once the transport is established
/// and the server has negotiated `signature`.
pub open spec fn auth_request(device: Device, signature: Option<SignatureHash>) -> AuthRequest {
    match device.auth_method() {
        AuthMethod::PublicKey => AuthRequest::PublicKey {
            username: device.username,
            key: device.private_key->0,
            passphrase: device.passphrase,
            signature,
        },
        AuthMethod::Password => AuthRequest::Password {
            username: device.username,
            password: device.password->0,
        },
        AuthMethod::Unauthenticated => AuthRequest::Unauthenticated { username: device.username },
    }
}

/// What a peer's refusal of `method` is reported as.
pub open spec fn refusal_message(method: AuthMethod) -> Seq<char> {
    match method {
        AuthMethod::PublicKey => "Device refused pubkey authorization"@,
        AuthMethod::Password => "Device refused password authorization"@,
        AuthMethod::Unauthenticated => "Device refused authorization"@,
    }
}

/// An authenticated session with a device.
#[derive(Debug, PartialEq, Eq)]
pub struct Connection {
    pub id: ConnectionId,
    pub device: Device,
}

impl Clone for Connection {
    fn clone(&self) -> (c: Connection)
        ensures
            c == *self,
    {
        Connection { id: self.id, device: self.device.clone() }
    }
}

/// A handshake that waits for the outcome of a transport attempt.
#[derive(Debug, PartialEq, Eq)]
pub struct Connecting {
    pub id: ConnectionId,
    pub device: Device,
    /// Whether the attempt under way offers the legacy algorithms.
    pub legacy: bool,
}

/// A handshake whose transport is established and that waits for the peer's
/// answer to the credentials.
#[derive(Debug, PartialEq, Eq)]
pub struct Authenticating {
    pub id: ConnectionId,
    pub device: Device,
}

/// What follows a transport attempt.
#[derive(Debug, PartialEq, Eq)]
pub enum Negotiated {
    /// The attempt failed over the algorithms: make the request, which
    /// offers the legacy set.
    Legacy(Connecting, ConnectRequest),
    /// The transport is established: present the credentials.
    Authenticate(Authenticating, AuthRequest),
    /// The handshake is over.
    Failed(Error),
}

impl Connecting {
    /// Whether a transport attempt that ended as `outcome` is followed by one
    /// with the legacy algorithms: only the first attempt is, and only when
    /// it failed over the algorithms.
    pub open spec fn falls_back(&self, outcome: Result<Option<SignatureHash>, ConnectError>) -> bool {
        &&& !self.legacy
        &&& outcome matches Err(e)
        &&& e.failure.calls_for_legacy()
    }

    /// What follows the transport attempt that ended as `outcome`.
    ///
    /// `Ok` carries the signature hash that the server negotiated, if any.
    pub open spec fn resolved(self, outcome: Result<Option<SignatureHash>, ConnectError>, next: Negotiated) -> bool {
        match outcome {
            Ok(signature) => next == Negotiated::Authenticate(
                Authenticating { id: self.id, device: self.device },
                auth_request(self.device, signature),
            ),
            Err(e) => if self.falls_back(outcome) {
                &&& next matches Negotiated::Legacy(again, request)
                &&& again == (Connecting { id: self.id, device: self.device, legacy: true })
                &&& request.is_attempt(self.id, self.device, true)
            } else {
                next == Negotiated::Failed(Error { kind: ErrorKind::IO, message: e.message })
            },
        }
    }

    /// Decides what follows the transport attempt that ended as `outcome`.
    pub fn resolve(self, outcome: Result<Option<SignatureHash>, ConnectError>) -> (next: Negotiated)
        ensures
            self.resolved(outcome, next),
    {
        match outcome {
            Ok(signature) => {
                let request = Authenticating::request(&self.device, signature);
                Negotiated::Authenticate(Authenticating { id: self.id, device: self.device }, request)
            },
            Err(e) => {
                if !self.legacy && e.failure.is_algorithm_mismatch() {
                    let request = SessionManager::try_conn(&self.id, &self.device, true);
                    Negotiated::Legacy(
                        Connecting { id: self.id, device: self.device, legacy: true },
                        request,
                    )
                } else {
                    Negotiated::Failed(Error { kind: ErrorKind::IO, message: e.message })
                }
            },
        }
    }
}

impl Authenticating {
    /// Builds the credentials that `device` presents: [`auth_request`].
    pub fn request(device: &Device, signature: Option<SignatureHash>) -> (request: AuthRequest)
        ensures
            request == auth_request(*device, signature),
            request.method() == device.auth_method(),
    {
        match &device.private_key {
            Some(key) => AuthRequest::PublicKey {
                username: device.username.clone(),
                key: key.clone(),
                passphrase: clone_text(&device.passphrase),
                signature,
            },
            None => match &device.password {
                Some(password) => AuthRequest::Password {
                    username: device.username.clone(),
                    password: password.clone(),
                },
                None => AuthRequest::Unauthenticated { username: device.username.clone() },
            },
        }
    }

    /// The result of the handshake when the peer answered the credentials
    /// with `reply`: `Ok(true)` accepts them, `Ok(false)` refuses them, and
    /// `Err` is a failure to get an answer at all.
    pub open spec fn resolved(self, reply: Result<bool, Error>, result: Result<Connection, Error>) -> bool {
        match reply {
            Ok(true) => result == Ok::<Connection, Error>(
                Connection { id: self.id, device: self.device },
            ),
            Ok(false) => {
                &&& result matches Err(e)
                &&& e.kind == ErrorKind::Authorization
                &&& e.message@ == refusal_message(self.device.auth_method())
            },
            Err(e) => result == Err::<Connection, Error>(e),
        }
    }

    /// Ends the handshake with the peer's answer to the credentials.
    pub fn resolve(self, reply: Result<bool, Error>) -> (result: Result<Connection, Error>)
        ensures
            self.resolved(reply, result),
    {
        match reply {
            Ok(true) => Ok(Connection { id: self.id, device: self.device }),
            Ok(false) => {
                let message = match self.device.select_auth_method() {
                    AuthMethod::PublicKey => "Device refused pubkey authorization",
                    AuthMethod::Password => "Device refused password authorization",
                    AuthMethod::Unauthenticated => "Device refused authorization",
                };
                Err(Error::new(ErrorKind::Authorization, message))
            },
            Err(e) => Err(e),
        }
    }
}

/// A handshake tries the legacy algorithms at most once.
///
/// The first attempt, which offers the modern algorithms, is followed by a
/// legacy attempt exactly when it failed over the algorithms; any other
/// failure ends the handshake with that failure's message. Whatever the
/// legacy attempt fails with ends the handshake too.
pub proof fn lemma_one_legacy_attempt(
    first: Connecting,
    outcome: Result<Option<SignatureHash>, ConnectError>,
    next: Negotiated,
    second_outcome: Result<Option<SignatureHash>, ConnectError>,
    last: Negotiated,
)
    requires
        !first.legacy,
        first.resolved(outcome, next),
        next matches Negotiated::Legacy(again, _) ==> again.resolved(second_outcome, last),
    ensures
        next is Legacy <==> (outcome matches Err(e) && e.failure.calls_for_legacy()),
        outcome matches Err(e) ==> (!e.failure.calls_for_legacy() ==> next == Negotiated::Failed(
            Error { kind: ErrorKind::IO, message: e.message },
        )),
        next matches Negotiated::Legacy(again, request) ==> {
            &&& again.legacy
            &&& request.preferred is Some
            &&& !(last is Legacy)
            &&& second_outcome matches Err(e) ==> last == Negotiated::Failed(
                Error { kind: ErrorKind::IO, message: e.message },
            )
        },
{
}

/// Only one method is ever tried: the credentials that a device presents
/// are those of its one method, a private key before a password and a
/// password before none, and a refusal ends the handshake with an
/// authorization error, with no other method tried.
pub proof fn lemma_one_auth_method(
    pending: Authenticating,
    signature: Option<SignatureHash>,
    result: Result<Connection, Error>,
)
    requires
        pending.resolved(Ok(false), result),
    ensures
        auth_request(pending.device, signature).method() == pending.device.auth_method(),
        pending.device.private_key is Some ==> auth_request(pending.device, signature) is PublicKey,
        pending.device.private_key is None && pending.device.password is Some ==> auth_request(
            pending.device,
            signature,
        ) is Password,
        result matches Err(e) && e.kind == ErrorKind::Authorization,
{
}

impl SessionManager {
    /// Builds one attempt to establish the transport of connection `id` to
    /// `device`: with the transport's own preference, or, if `legacy_algo`,
    /// with the legacy key-exchange and host-key algorithms that old SSH
    /// daemons still speak.
    pub fn try_conn(id: &ConnectionId, device: &Device, legacy_algo: bool) -> (request: ConnectRequest)
        ensures
            request.is_attempt(*id, *device, legacy_algo),
    {
        let preferred = if legacy_algo {
            let key = vec![
                KeyAlgorithm::SshRsa,
                KeyAlgorithm::RsaSha512,
                KeyAlgorithm::RsaSha256,
                KeyAlgorithm::Ed25519,
            ];
            let kex = vec![
                KexAlgorithm::DhGroup14Sha1,
                KexAlgorithm::DhGroup1Sha1,
                KexAlgorithm::DhGroup14Sha256,
                KexAlgorithm::Curve25519,
            ];
            Some(Preferred { key, kex })
        } else {
            None
        };
        ConnectRequest {
            id: *id,
            key: device.name.clone(),
            host: device.host.clone(),
            port: device.port,
            timeout_secs: CONNECTION_TIMEOUT_SECS,
            preferred,
        }
    }

    /// Starts the handshake of a new connection to `device`: gives the
    /// connection its identity and builds the first transport attempt, which
    /// offers the modern algorithms.
    pub fn conn_new(device: Device) -> (start: (Connecting, ConnectRequest))
        ensures
            start.0.device == device,
            !start.0.legacy,
            is_random_uuid(start.0.id.value),
            start.1.is_attempt(start.0.id, device, false),
    {
        let id = ConnectionId::generate();
        let request = SessionManager::try_conn(&id, &device, false);
        (Connecting { id, device, legacy: false }, request)
    }
}

} // verus!
