//! Developer mode: the token that a device keeps while developer mode is on,
//! and what the vendor says of the session that the token stands for.
//!
//! Reading the token off the device and asking the vendor are left to the
//! caller; what is decided of the bytes and of the answer is decided here.

use vstd::prelude::*;
use vstd::utf8::{
    encode_utf8, is_leading_byte_width_1, partial_valid_utf8, partial_valid_utf8_extend_ascii_block,
    valid_utf8,
};
use crate::device::Device;
use crate::error::{Error, ErrorKind};

verus! {

/// Where a device keeps its developer-mode token.
pub const TOKEN_PATH: &'static str = "/var/luna/preferences/devmode_enabled";

/// Where the vendor answers for a developer-mode session.
pub const SESSION_URL: &'static str = "https://developer.lge.com/secure/CheckDevModeSession.dev";

/// The query parameter in which the vendor takes the token.
pub const SESSION_PARAMETER: &'static str = "sessionToken";

/// The account under which a device hands out its token.
pub const TOKEN_USER: &'static str = "prisoner";

/// What is known of a device's developer mode.
#[derive(Debug, PartialEq, Eq)]
pub struct DevModeStatus {
    /// The token, if the device has a valid one.
    pub token: Option<String>,
    /// The time that the session has left, as the vendor words it, if the
    /// vendor vouched for the token.
    pub remaining: Option<String>,
}

/// The vendor's answer for a session.
#[derive(Debug, PartialEq, Eq)]
pub struct DevModeSession {
    pub result: String,
    pub error_code: Option<String>,
    pub error_msg: Option<String>,
}

/// Whether `byte` may stand in a token: an ASCII digit or letter.
pub open spec fn is_token_byte(byte: u8) -> bool {
    ||| 0x30 <= byte <= 0x39
    ||| 0x41 <= byte <= 0x5A
    ||| 0x61 <= byte <= 0x7A
}

/// Whether `data` has the form of a token: one or more ASCII digits and
/// letters and nothing else, which is what the pattern `^[0-9a-zA-Z]+$`
/// accepts.
pub open spec fn is_token(data: Seq<u8>) -> bool {
    data.len() > 0 && forall|i: int| 0 <= i < data.len() ==> is_token_byte(#[trigger] data[i])
}

/// Whether `e` says that the token file could not be read as text.
pub open spec fn is_unreadable_token(e: Error) -> bool {
    e.kind == ErrorKind::IO && e.message@ == "Can't read dev mode token"@
}

/// Whether `e` says that the device offers no token.
pub open spec fn is_unsupported(e: Error) -> bool {
    e.kind == ErrorKind::Unsupported && e.message@ == "Unsupported"@
}

/// Bytes that have the form of a token are text.
pub proof fn lemma_token_is_text(data: Seq<u8>)
    requires
        is_token(data),
    ensures
        valid_utf8(data),
{
    assert forall|i: int| 0 <= i < data.len() implies #[trigger] is_leading_byte_width_1(
        data[i],
    ) by {
        assert(is_token_byte(data[i]));
    }
    assert(data.subrange(0, 0) =~= Seq::<u8>::empty());
    assert(partial_valid_utf8(data, 0));
    partial_valid_utf8_extend_ascii_block(data, 0, data.len() as int);
    assert(data.subrange(0, data.len() as int) =~= data);
}

/// Turns bytes into text with `String::from_utf8`.
///
/// Trusted: the standard library documents that the conversion succeeds
/// exactly on valid UTF-8 and keeps the bytes as they are.
#[verifier::external_body]
fn text_from_utf8(data: Vec<u8>) -> (text: Option<String>)
    ensures
        text is Some <==> valid_utf8(data@),
        text matches Some(s) ==> encode_utf8(s@) == data@,
{
    match String::from_utf8(data) {
        Ok(text) => Some(text),
        Err(_) => None,
    }
}

/// Computes [`is_token`].
pub fn has_token_form(data: &[u8]) -> (b: bool)
    ensures
        b == is_token(data@),
{
    if data.len() == 0 {
        return false;
    }
    let mut i: usize = 0;
    while i < data.len()
        invariant
            i <= data.len(),
            forall|k: int| 0 <= k < i ==> is_token_byte(#[trigger] data[k]),
        decreases data.len() - i,
    {
        let byte = data[i];
        let accepted = (0x30 <= byte && byte <= 0x39) || (0x41 <= byte && byte <= 0x5A) || (0x61
            <= byte && byte <= 0x7A);
        if !accepted {
            return false;
        }
        i += 1;
    }
    true
}

/// Reads the token out of the contents of the device's token file.
///
/// Contents that are no text are an error. Text that has not the form of a
/// token means that developer mode is off: there is no token. Otherwise the
/// contents are the token.
pub fn valid_token(data: Vec<u8>) -> (result: Result<Option<String>, Error>)
    ensures
        is_token(data@) ==> (result matches Ok(Some(token)) && encode_utf8(token@) == data@),
        !is_token(data@) && valid_utf8(data@) ==> result == Ok::<Option<String>, Error>(None),
        !valid_utf8(data@) ==> (result matches Err(e) && is_unreadable_token(e)),
{
    let formed = has_token_form(data.as_slice());
    proof {
        if formed {
            lemma_token_is_text(data@);
        }
    }
    match text_from_utf8(data) {
        None => Err(Error::new(ErrorKind::IO, "Can't read dev mode token")),
        Some(text) => {
            if formed {
                Ok(Some(text))
            } else {
                Ok(None)
            }
        },
    }
}

/// Whether `device` is logged into under the account that hands out the
/// token.
pub open spec fn hands_out_token(device: Device) -> bool {
    device.username@ == TOKEN_USER@
}

/// Says whether `device` can be asked for its token at all: only the
/// account [`TOKEN_USER`] hands it out.
pub fn token_user(device: &Device) -> (result: Result<(), Error>)
    ensures
        hands_out_token(*device) ==> result is Ok,
        !hands_out_token(*device) ==> (result matches Err(e) && is_unsupported(e)),
{
    let user = TOKEN_USER.to_owned();
    if device.username == user {
        Ok(())
    } else {
        Err(Error::new(ErrorKind::Unsupported, "Unsupported"))
    }
}

/// The token of `device`, whose token file holds `data`.
///
/// A device that is not logged into under [`TOKEN_USER`] has none to give,
/// and neither has one whose developer mode is off.
pub fn token(device: &Device, data: Vec<u8>) -> (result: Result<String, Error>)
    ensures
        hands_out_token(*device) && is_token(data@) ==> (result matches Ok(token) && encode_utf8(
            token@,
        ) == data@),
        hands_out_token(*device) && !is_token(data@) && valid_utf8(data@) ==> (result matches Err(e)
            && is_unsupported(e)),
        hands_out_token(*device) && !valid_utf8(data@) ==> (result matches Err(e)
            && is_unreadable_token(e)),
        !hands_out_token(*device) ==> (result matches Err(e) && is_unsupported(e)),
{
    match token_user(device) {
        Err(e) => Err(e),
        Ok(()) => match valid_token(data) {
            Err(e) => Err(e),
            Ok(None) => Err(Error::new(ErrorKind::Unsupported, "Unsupported")),
            Ok(Some(token)) => Ok(token),
        },
    }
}

impl DevModeStatus {
    /// The status of a device whose developer mode is off.
    pub fn off() -> (status: DevModeStatus)
        ensures
            status == (DevModeStatus { token: None, remaining: None }),
    {
        DevModeStatus { token: None, remaining: None }
    }
}

/// What `session`, the vendor's answer for a token, says of the time left.
///
/// Only an answer whose result is `success` vouches for the token; the time
/// left is then what the answer gives as its message, or the empty text.
/// After any other answer the time left is unknown.
pub open spec fn remaining_time(session: DevModeSession) -> Option<Seq<char>> {
    if session.result@ == "success"@ {
        match session.error_msg {
            Some(left) => Some(left@),
            None => Some(Seq::empty()),
        }
    } else {
        None
    }
}

/// The status of a device that holds `token`, for which the vendor answered
/// `session`: the token, with [`remaining_time`].
pub fn status(token: String, session: DevModeSession) -> (status: DevModeStatus)
    ensures
        status.token == Some(token),
        match remaining_time(session) {
            Some(left) => status.remaining matches Some(text) && text@ == left,
            None => status.remaining is None,
        },
{
    let success = "success".to_owned();
    if session.result == success {
        let left = match session.error_msg {
            Some(message) => message,
            None => String::new(),
        };
        DevModeStatus { token: Some(token), remaining: Some(left) }
    } else {
        DevModeStatus { token: Some(token), remaining: None }
    }
}

} // verus!
