//! Connection, call, login and update state shown to the user.

use vstd::prelude::*;
use vstd::string::*;

use crate::ids::{parsed_uuid, uuid_from_str, uuid_text, uuid_to_string};

verus! {

/// State of a call.
#[derive(Debug, Clone, Copy, PartialEq, Eq)]
pub enum CallStatus {
    Connecting,
    Connected,
    Disconnected,
    Failed,
    Closed,
}

/// Connection state of the client.
#[derive(Debug, Clone)]
pub enum Status {
    /// In a call in the named channel.
    OnCall(String, CallStatus),
    Online,
    Connecting,
    Offline,
}

/// State of the media connection of a call, as the WebRTC layer reports it.
#[derive(Debug, Clone, Copy, PartialEq, Eq)]
pub enum PeerConnectionState {
    Unspecified,
    New,
    Connecting,
    Connected,
    Disconnected,
    Failed,
    Closed,
}

/// The call status shown for a media connection state: a new or unknown
/// connection counts as connecting.
pub open spec fn spec_call_status_for(state: PeerConnectionState) -> CallStatus {
    match state {
        PeerConnectionState::Unspecified => CallStatus::Connecting,
        PeerConnectionState::New => CallStatus::Connecting,
        PeerConnectionState::Connecting => CallStatus::Connecting,
        PeerConnectionState::Connected => CallStatus::Connected,
        PeerConnectionState::Disconnected => CallStatus::Disconnected,
        PeerConnectionState::Failed => CallStatus::Failed,
        PeerConnectionState::Closed => CallStatus::Closed,
    }
}

/// The call status shown for a media connection state.
pub fn call_status_for(state: PeerConnectionState) -> (res: CallStatus)
    ensures
        res == spec_call_status_for(state),
{
    match state {
        PeerConnectionState::Unspecified | PeerConnectionState::New | PeerConnectionState::Connecting => CallStatus::Connecting,
        PeerConnectionState::Connected => CallStatus::Connected,
        PeerConnectionState::Disconnected => CallStatus::Disconnected,
        PeerConnectionState::Failed => CallStatus::Failed,
        PeerConnectionState::Closed => CallStatus::Closed,
    }
}

/// The status shown while in a call in `channel_name` whose media
/// connection is in `state`.
pub fn on_call_status(channel_name: String, state: PeerConnectionState) -> (res: Status)
    ensures
        res matches Status::OnCall(name, s) && name == channel_name && s == spec_call_status_for(state),
{
    Status::OnCall(channel_name, call_status_for(state))
}

/// Progress of an application update.
#[derive(Debug, Clone, PartialEq, Eq)]
pub enum UpdateState {
    Checking,
    Downloading,
    Installing,
    Completed,
    Error(String),
}

/// The text shown for an update state.
pub open spec fn update_state_text(state: UpdateState) -> Seq<char> {
    match state {
        UpdateState::Checking => "Checking for updates..."@,
        UpdateState::Downloading => "Downloading updates..."@,
        UpdateState::Installing => "Installing updates..."@,
        UpdateState::Completed => "Updates completed successfully."@,
        UpdateState::Error(err) => "Error occurred: "@ + err@,
    }
}

impl UpdateState {
    /// The text shown for this update state.
    pub fn to_string(&self) -> (res: String)
        ensures
            res@ == update_state_text(*self),
    {
        match self {
            UpdateState::Checking => String::from_str("Checking for updates..."),
            UpdateState::Downloading => String::from_str("Downloading updates..."),
            UpdateState::Installing => String::from_str("Installing updates..."),
            UpdateState::Completed => String::from_str("Updates completed successfully."),
            UpdateState::Error(err) => {
                let mut res = String::from_str("Error occurred: ");
                res.append(err.as_str());
                res
            },
        }
    }
}

/// Download progress of an update, in percent.
#[derive(Debug, Clone, Copy, PartialEq, Eq)]
pub struct DownloadProgress(pub u32);

/// Adds a received chunk to the bytes received so far and gives the new
/// total and the progress in percent of `all` bytes (cut to 32 bits as the
/// progress event carries it).
pub fn download_progress(total_received: u64, received: usize, all: u64) -> (res: (u64, DownloadProgress))
    requires
        all > 0,
        (total_received + received) * 100 <= u64::MAX,
    ensures
        res.0 == total_received + received,
        res.1.0 == (((total_received + received) * 100) / (all as int)) as u32,
{
    let total = total_received + received as u64;
    let percentage = total * 100 / all;
    (total, DownloadProgress(percentage as u32))
}

/// A stored login session.
#[derive(Debug, Clone)]
pub struct Session {
    pub id: i32,
    pub token: String,
    pub user_id: u128,
    pub username: String,
}

impl Session {
    /// The empty session: id 0, no token, the nil user.
    pub fn default() -> (res: Self)
        ensures
            res.id == 0,
            res.token@ == Seq::<char>::empty(),
            res.user_id == 0,
            res.username@ == Seq::<char>::empty(),
    {
        Session { id: 0, token: String::new(), user_id: 0, username: String::new() }
    }

    /// A session for `user_id` with the given cookie token, stored under id 0.
    pub fn new(token: String, user_id: u128, username: String) -> (res: Self)
        ensures
            res.id == 0,
            res.token == token,
            res.user_id == user_id,
            res.username == username,
    {
        Session { id: 0, token, user_id, username }
    }
}

/// Whether the user is logged in.
#[derive(Debug, Clone)]
pub enum LoginStatus {
    LoggedIn(Session),
    LoggedOut,
}

impl LoginStatus {
    /// `!status`: true exactly when logged out.
    pub fn not(self) -> (res: bool)
        ensures
            res == (self is LoggedOut),
    {
        match self {
            LoginStatus::LoggedOut => true,
            LoginStatus::LoggedIn(_) => false,
        }
    }
}

/// A session as it is stored, with the user id as text.
#[derive(Debug, Clone)]
pub struct SessionWString {
    pub id: i32,
    pub token: String,
    pub user_id: String,
    pub username: String,
}

impl SessionWString {
    /// The empty stored session.
    pub fn default() -> (res: Self)
        ensures
            res.id == 0,
            res.token@ == Seq::<char>::empty(),
            res.user_id@ == Seq::<char>::empty(),
            res.username@ == Seq::<char>::empty(),
    {
        SessionWString { id: 0, token: String::new(), user_id: String::new(), username: String::new() }
    }

    /// The stored form of a session: the user id written as a UUID.
    pub fn from(session: Session) -> (res: Self)
        ensures
            res.id == session.id,
            res.token == session.token,
            res.user_id@ == uuid_text(session.user_id),
            res.username == session.username,
            stored_user_id(res.user_id@) == session.user_id,
    {
        SessionWString {
            id: session.id,
            token: session.token,
            user_id: uuid_to_string(session.user_id),
            username: session.username,
        }
    }
}

/// The user id a stored session names: the UUID in its text, or the nil
/// UUID when the text is no UUID.
pub open spec fn stored_user_id(text: Seq<char>) -> u128 {
    match parsed_uuid(text) {
        Some(id) => id,
        None => 0,
    }
}

impl Session {
    /// The session a stored row describes; an unreadable user id becomes the
    /// nil UUID.
    pub fn from(session: SessionWString) -> (res: Self)
        ensures
            res.id == session.id,
            res.token == session.token,
            res.user_id == stored_user_id(session.user_id@),
            res.username == session.username,
    {
        let user_id = match uuid_from_str(session.user_id.as_str()) {
            Some(id) => id,
            None => 0,
        };
        Session { id: session.id, token: session.token, user_id, username: session.username }
    }
}

/// A session written to storage and read back is the same session: the
/// stored form that `SessionWString::from` gives, read with `Session::from`,
/// has every field of the session it was written from.
pub proof fn lemma_stored_session_reads_back(session: Session, stored: SessionWString, back: Session)
    requires
        stored.id == session.id,
        stored.token == session.token,
        stored.user_id@ == uuid_text(session.user_id),
        stored.username == session.username,
        stored_user_id(stored.user_id@) == session.user_id,
        back.id == stored.id,
        back.token == stored.token,
        back.user_id == stored_user_id(stored.user_id@),
        back.username == stored.username,
    ensures
        back == session,
{
}

/// The login state given the stored session, if one is stored.
pub fn login_status_from_row(row: Option<SessionWString>) -> (res: LoginStatus)
    ensures
        match row {
            Some(r) => res matches LoginStatus::LoggedIn(s) && s.id == r.id && s.token == r.token
                && s.user_id == stored_user_id(r.user_id@) && s.username == r.username,
            None => res is LoggedOut,
        },
{
    match row {
        Some(r) => LoginStatus::LoggedIn(Session::from(r)),
        None => LoginStatus::LoggedOut,
    }
}

} // verus!
