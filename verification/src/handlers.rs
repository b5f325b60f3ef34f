//! Decisions of the HTTP and WebSocket handlers of the server: which right
//! a request needs, which requests are refused, and with what answer.
//!
//! Lookups in storage are passed in as functions; their failures are handed
//! back unchanged as the outer error.

use vstd::prelude::*;
use vstd::string::*;

use crate::channels::{Channel, NewChannel};
use crate::error::Error;
use crate::permissions::{
    create_channel_permission, join_audio_permission, needed_to_create, needed_to_join, visible_channel_seq, visible_channels,
    PermissionType,
};

verus! {

/// HTTP status 200.
pub const OK: u16 = 200;
/// HTTP status 201.
pub const CREATED: u16 = 201;
/// HTTP status 400.
pub const BAD_REQUEST: u16 = 400;
/// HTTP status 401.
pub const UNAUTHORIZED: u16 = 401;
/// HTTP status 403.
pub const FORBIDDEN: u16 = 403;
/// HTTP status 500.
pub const INTERNAL_SERVER_ERROR: u16 = 500;

/// Query of an activation link: the activation code.
#[derive(Debug, Clone)]
pub struct TokenQuery {
    pub token: String,
}

/// Body of a request to join a server.
#[derive(Debug, Clone)]
pub struct ConnectionString {
    pub connection_string: String,
}

/// An HTTP answer: status and text body.
#[derive(Debug, Clone)]
pub struct Reply {
    pub status: u16,
    pub body: String,
}

/// The answer with `status` and body `body`.
pub open spec fn is_reply(r: Reply, status: u16, body: Seq<char>) -> bool {
    r.status == status && r.body@ == body
}

/// An answer with a fixed text.
fn reply(status: u16, body: &str) -> (res: Reply)
    ensures
        is_reply(res, status, body@),
{
    Reply { status, body: String::from_str(body) }
}

/// Errors reported to a WebSocket client.
#[derive(Debug, Clone, Copy, PartialEq, Eq)]
pub enum WebSocketError {
    NotFound,
    NotAuthorized,
}

/// The text of an error, as shown to users.
pub open spec fn error_text(e: Error) -> Seq<char> {
    match e {
        Error::InvalidCredentials => "Username or password is incorrect"@,
        Error::RoomFull => "Room is full"@,
        Error::PasswordHash(m) => "Password hash error: "@ + m@,
        Error::InvalidActivationCode => "Invalid Activation Code"@,
        Error::UserNotFoundInRoom => "UserNotFound in the room"@,
        Error::ConnectionStringGenerationFailed => "Failed to generate a connection string"@,
        Error::InvalidFileName(n) => "Invalid file name: "@ + n@,
        Error::WebRTCConnectionNotInitialized => "WebRTC connection is not initialized"@,
    }
}

impl Error {
    /// The text of this error, as shown to users.
    pub fn to_string(&self) -> (res: String)
        ensures
            res@ == error_text(*self),
    {
        match self {
            Error::InvalidCredentials => String::from_str("Username or password is incorrect"),
            Error::RoomFull => String::from_str("Room is full"),
            Error::PasswordHash(m) => {
                let mut s = String::from_str("Password hash error: ");
                s.append(m.as_str());
                s
            },
            Error::InvalidActivationCode => String::from_str("Invalid Activation Code"),
            Error::UserNotFoundInRoom => String::from_str("UserNotFound in the room"),
            Error::ConnectionStringGenerationFailed => String::from_str("Failed to generate a connection string"),
            Error::InvalidFileName(n) => {
                let mut s = String::from_str("Invalid file name: ");
                s.append(n.as_str());
                s
            },
            Error::WebRTCConnectionNotInitialized => String::from_str("WebRTC connection is not initialized"),
        }
    }
}

/// The answer to a login: 200 "Logged in" when the credentials were
/// accepted and the session was opened; 401 "Invalid credentials" when they
/// were not; 500 with the error text when checking them or opening the
/// session failed.
pub fn login_reply(authenticated: Result<bool, String>, session_opened: Result<(), String>) -> (res: Reply)
    ensures
        match authenticated {
            Err(e) => is_reply(res, INTERNAL_SERVER_ERROR, e@),
            Ok(false) => is_reply(res, UNAUTHORIZED, "Invalid credentials"@),
            Ok(true) => match session_opened {
                Ok(()) => is_reply(res, OK, "Logged in"@),
                Err(e) => is_reply(res, INTERNAL_SERVER_ERROR, e@),
            },
        },
{
    match authenticated {
        Err(e) => Reply { status: INTERNAL_SERVER_ERROR, body: e },
        Ok(false) => reply(UNAUTHORIZED, "Invalid credentials"),
        Ok(true) => match session_opened {
            Ok(()) => reply(OK, "Logged in"),
            Err(e) => Reply { status: INTERNAL_SERVER_ERROR, body: e },
        },
    }
}

/// Checks a sign-up request before the account is created: a taken user
/// name gives 400 "Username already exists" (the e-mail address is then not
/// looked up), a taken address 400 "Email already exists"; `None` lets the
/// sign-up go on.
pub fn check_signup<E, U: Fn(&str) -> Result<bool, E>, M: Fn(&str) -> Result<bool, E>>(
    username: &str,
    email: &str,
    username_taken: &U,
    email_taken: &M,
) -> (res: Result<Option<Reply>, E>)
    requires
        username_taken.requires((username,)),
        email_taken.requires((email,)),
    ensures
        match res {
            Ok(Some(r)) => {
                ||| username_taken.ensures((username,), Ok::<bool, E>(true)) && is_reply(r, BAD_REQUEST, "Username already exists"@)
                ||| username_taken.ensures((username,), Ok::<bool, E>(false)) && email_taken.ensures((email,), Ok::<bool, E>(true))
                    && is_reply(r, BAD_REQUEST, "Email already exists"@)
            },
            Ok(None) => username_taken.ensures((username,), Ok::<bool, E>(false)) && email_taken.ensures((email,), Ok::<bool, E>(false)),
            Err(e) => username_taken.ensures((username,), Err::<bool, E>(e)) || (username_taken.ensures(
                (username,),
                Ok::<bool, E>(false),
            ) && email_taken.ensures((email,), Err::<bool, E>(e))),
        },
{
    match username_taken(username) {
        Err(e) => return Err(e),
        Ok(true) => return Ok(Some(reply(BAD_REQUEST, "Username already exists"))),
        Ok(false) => {},
    }
    match email_taken(email) {
        Err(e) => Err(e),
        Ok(true) => Ok(Some(reply(BAD_REQUEST, "Email already exists"))),
        Ok(false) => Ok(None),
    }
}

/// The answer to a finished sign-up: 200 "Signed up", or 500 with the error
/// text.
pub fn signup_reply(created: Result<(), String>) -> (res: Reply)
    ensures
        match created {
            Ok(()) => is_reply(res, OK, "Signed up"@),
            Err(e) => is_reply(res, INTERNAL_SERVER_ERROR, e@),
        },
{
    match created {
        Ok(()) => reply(OK, "Signed up"),
        Err(e) => Reply { status: INTERNAL_SERVER_ERROR, body: e },
    }
}

/// The answer to an activation request: 200 "User activated" when an
/// account was activated, 400 "Invalid token" for an unknown or expired
/// code, 500 with the error text otherwise.
pub fn activation_reply(outcome: Result<bool, String>) -> (res: Reply)
    ensures
        match outcome {
            Ok(true) => is_reply(res, OK, "User activated"@),
            Ok(false) => is_reply(res, BAD_REQUEST, "Invalid token"@),
            Err(e) => is_reply(res, INTERNAL_SERVER_ERROR, e@),
        },
{
    match outcome {
        Ok(true) => reply(OK, "User activated"),
        Ok(false) => reply(BAD_REQUEST, "Invalid token"),
        Err(e) => Reply { status: INTERNAL_SERVER_ERROR, body: e },
    }
}

/// Checks the right to create `new_channel` on its server: `None` lets the
/// creation go on, a missing right gives 403 "Permission denied".
pub fn check_create_channel<E, F: Fn(PermissionType) -> Result<bool, E>>(new_channel: &NewChannel, has_permission: &F) -> (res: Result<Option<Reply>, E>)
    requires
        has_permission.requires((needed_to_create(new_channel.hidden),)),
    ensures
        match res {
            Ok(Some(r)) => has_permission.ensures((needed_to_create(new_channel.hidden),), Ok::<bool, E>(false))
                && is_reply(r, FORBIDDEN, "Permission denied"@),
            Ok(None) => has_permission.ensures((needed_to_create(new_channel.hidden),), Ok::<bool, E>(true)),
            Err(e) => has_permission.ensures((needed_to_create(new_channel.hidden),), Err::<bool, E>(e)),
        },
{
    let permission = create_channel_permission(new_channel.hidden);
    match has_permission(permission) {
        Err(e) => Err(e),
        Ok(true) => Ok(None),
        Ok(false) => Ok(Some(reply(FORBIDDEN, "Permission denied"))),
    }
}

/// The channels of a server that a user may see: the user's rights to list
/// channels and hidden channels are looked up, in that order, and the
/// channels filtered by them.
pub fn list_visible_channels<E, F: Fn(PermissionType) -> Result<bool, E>>(channels: Vec<Channel>, has_permission: &F) -> (res: Result<Vec<Channel>, E>)
    requires
        has_permission.requires((PermissionType::ListChannels,)),
        has_permission.requires((PermissionType::ListHiddenChannels,)),
    ensures
        match res {
            Ok(v) => exists|can_see: bool, can_see_hidden: bool| {
                &&& has_permission.ensures((PermissionType::ListChannels,), Ok::<bool, E>(can_see))
                &&& has_permission.ensures((PermissionType::ListHiddenChannels,), Ok::<bool, E>(can_see_hidden))
                &&& v@ == visible_channel_seq(channels@, can_see, can_see_hidden)
            },
            Err(e) => has_permission.ensures((PermissionType::ListChannels,), Err::<bool, E>(e)) || has_permission.ensures(
                (PermissionType::ListHiddenChannels,),
                Err::<bool, E>(e),
            ),
        },
{
    let can_see = match has_permission(PermissionType::ListChannels) {
        Ok(b) => b,
        Err(e) => return Err(e),
    };
    let can_see_hidden = match has_permission(PermissionType::ListHiddenChannels) {
        Ok(b) => b,
        Err(e) => return Err(e),
    };
    Ok(visible_channels(channels, can_see, can_see_hidden))
}

/// Checks a request to join the audio of a channel: an unknown channel is
/// refused with `NotFound`, a user without the right to join it with
/// `NotAuthorized`; otherwise the channel is given back.
pub fn check_audio_join<E, F: Fn(PermissionType) -> Result<bool, E>>(channel: Option<Channel>, has_permission: &F) -> (res: Result<Result<Channel, WebSocketError>, E>)
    requires
        channel matches Some(c) ==> has_permission.requires((needed_to_join(c.hidden),)),
    ensures
        match channel {
            None => res == Ok::<Result<Channel, WebSocketError>, E>(Err(WebSocketError::NotFound)),
            Some(c) => match res {
                Ok(Ok(found)) => found == c && has_permission.ensures((needed_to_join(c.hidden),), Ok::<bool, E>(true)),
                Ok(Err(w)) => w == WebSocketError::NotAuthorized && has_permission.ensures(
                    (needed_to_join(c.hidden),),
                    Ok::<bool, E>(false),
                ),
                Err(e) => has_permission.ensures((needed_to_join(c.hidden),), Err::<bool, E>(e)),
            },
        },
{
    match channel {
        None => Ok(Err(WebSocketError::NotFound)),
        Some(c) => match has_permission(join_audio_permission(c.hidden)) {
            Err(e) => Err(e),
            Ok(true) => Ok(Ok(c)),
            Ok(false) => Ok(Err(WebSocketError::NotAuthorized)),
        },
    }
}

/// Checks the image part of a server creation form: it needs a file name and
/// a content type starting with `image/`. Gives the file name, or the 400
/// answer.
pub fn check_image_field(file_name: Option<String>, content_type: Option<String>) -> (res: Result<String, Reply>)
    ensures
        match (file_name, content_type) {
            (None, _) => res matches Err(r) && is_reply(r, BAD_REQUEST, "Server image has no filename"@),
            (Some(_), None) => res matches Err(r) && is_reply(r, BAD_REQUEST, "Server image has no content type"@),
            (Some(f), Some(t)) => if t@.len() >= 6 && t@.subrange(0, 6) == "image/"@ {
                res == Ok::<String, Reply>(f)
            } else {
                res matches Err(r) && is_reply(r, BAD_REQUEST, "Invalid image type"@)
            },
        },
{
    let f = match file_name {
        Some(f) => f,
        None => return Err(reply(BAD_REQUEST, "Server image has no filename")),
    };
    let t = match content_type {
        Some(t) => t,
        None => return Err(reply(BAD_REQUEST, "Server image has no content type")),
    };
    if starts_with_image(t.as_str()) {
        Ok(f)
    } else {
        Err(reply(BAD_REQUEST, "Invalid image type"))
    }
}

/// Whether `s` starts with `image/`.
fn starts_with_image(s: &str) -> (res: bool)
    ensures
        res == (s@.len() >= 6 && s@.subrange(0, 6) == "image/"@),
{
    proof {
        reveal_strlit("image/");
    }
    let n = s.unicode_len();
    if n < 6 {
        return false;
    }
    let prefix = String::from_str(s.substring_char(0, 6));
    let expected = String::from_str("image/");
    prefix.eq(&expected)
}

/// A server creation form needs a server name: without one the answer is
/// 400 "Server name is required".
pub fn check_server_name(server_name: Option<String>) -> (res: Result<String, Reply>)
    ensures
        match server_name {
            Some(n) => res == Ok::<String, Reply>(n),
            None => res matches Err(r) && is_reply(r, BAD_REQUEST, "Server name is required"@),
        },
{
    match server_name {
        Some(n) => Ok(n),
        None => Err(reply(BAD_REQUEST, "Server name is required")),
    }
}

/// The answer to a request to join a server by connection string, given
/// the server found for it and the outcome of adding the user: 400 "Server
/// not found" for an unknown string, 200 "Joined server successfully" when
/// the user was added, 500 with the error text when a step failed.
pub fn join_server_reply(found: Result<Option<u128>, String>, joined: Result<(), String>) -> (res: Reply)
    ensures
        match found {
            Err(e) => is_reply(res, INTERNAL_SERVER_ERROR, e@),
            Ok(None) => is_reply(res, BAD_REQUEST, "Server not found"@),
            Ok(Some(_)) => match joined {
                Ok(()) => is_reply(res, OK, "Joined server successfully"@),
                Err(e) => is_reply(res, INTERNAL_SERVER_ERROR, e@),
            },
        },
{
    match found {
        Err(e) => Reply { status: INTERNAL_SERVER_ERROR, body: e },
        Ok(None) => reply(BAD_REQUEST, "Server not found"),
        Ok(Some(_)) => match joined {
            Ok(()) => reply(OK, "Joined server successfully"),
            Err(e) => Reply { status: INTERNAL_SERVER_ERROR, body: e },
        },
    }
}

} // verus!
