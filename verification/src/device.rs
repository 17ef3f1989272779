//! Devices: where to connect and with which credentials.

use vstd::prelude::*;

verus! {

/// A private key as the device configuration stores it: the key file's text.
#[derive(Debug, PartialEq, Eq)]
pub struct PrivateKey {
    pub data: String,
}

impl Clone for PrivateKey {
    fn clone(&self) -> (k: PrivateKey)
        ensures
            k == *self,
    {
        PrivateKey { data: self.data.clone() }
    }
}

/// A connection target and its credentials.
///
/// `name` is the key under which the device's connection is pooled. A device
/// marked `new` is never pooled: every operation on it gets a connection of
/// its own.
#[derive(Debug, PartialEq, Eq)]
pub struct Device {
    pub name: String,
    pub host: String,
    pub port: u16,
    pub username: String,
    pub password: Option<String>,
    pub private_key: Option<PrivateKey>,
    pub passphrase: Option<String>,
    pub new: bool,
}

/// The way a device is authenticated.
#[derive(Clone, Copy, Debug, PartialEq, Eq, Structural)]
pub enum AuthMethod {
    PublicKey,
    Password,
    /// No credential at all: the login that SSH calls "none".
    Unauthenticated,
}

/// A copy of an optional string.
pub fn clone_text(text: &Option<String>) -> (copy: Option<String>)
    ensures
        copy == *text,
{
    match text {
        Some(s) => Some(s.clone()),
        None => None,
    }
}

impl Device {
    /// The one method by which this device is authenticated: its private key
    /// if it has one, else its password if it has one, else no credential.
    pub open spec fn auth_method(&self) -> AuthMethod {
        if self.private_key is Some {
            AuthMethod::PublicKey
        } else if self.password is Some {
            AuthMethod::Password
        } else {
            AuthMethod::Unauthenticated
        }
    }

    /// Computes [`Device::auth_method`].
    pub fn select_auth_method(&self) -> (method: AuthMethod)
        ensures
            method == self.auth_method(),
    {
        if self.private_key.is_some() {
            AuthMethod::PublicKey
        } else if self.password.is_some() {
            AuthMethod::Password
        } else {
            AuthMethod::Unauthenticated
        }
    }
}

impl Clone for Device {
    fn clone(&self) -> (d: Device)
        ensures
            d == *self,
    {
        let private_key = match &self.private_key {
            Some(k) => Some(k.clone()),
            None => None,
        };
        Device {
            name: self.name.clone(),
            host: self.host.clone(),
            port: self.port,
            username: self.username.clone(),
            password: clone_text(&self.password),
            private_key,
            passphrase: clone_text(&self.passphrase),
            new: self.new,
        }
    }
}

/// A private key, where there is one, always decides the method: a password
/// that is configured beside it plays no part.
pub proof fn lemma_private_key_precedes_password(device: Device)
    ensures
        device.private_key is Some ==> device.auth_method() == AuthMethod::PublicKey,
        device.private_key is None && device.password is Some ==> device.auth_method()
            == AuthMethod::Password,
        device.private_key is None && device.password is None ==> device.auth_method()
            == AuthMethod::Unauthenticated,
{
}

} // verus!
