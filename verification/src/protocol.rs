//! What each side of the WebSocket connection does with a message.

use vstd::prelude::*;

use crate::error::Error;
use crate::handlers::WebSocketError;

verus! {

/// The kind of a WebSocket message, without its payload.
#[derive(Debug, Clone, Copy, PartialEq, Eq)]
pub enum MessageKind {
    /// A client asks to join the audio of a channel.
    JoinAudioChannel,
    /// A client leaves the audio of its channel.
    DisconnectFromAudioChannel,
    IceCandidate,
    WebRTCOffer,
    WebRTCAnswer,
    Disconnect,
    Error(WebSocketError),
    /// Someone joined a voice channel the client looks at.
    SomeoneJoinedAudioChannel,
    /// Someone left a voice channel the client looks at.
    SomeoneLeftAudioChannel,
}

/// What the server does with a message from a client.
#[derive(Debug, Clone, Copy, PartialEq, Eq)]
pub enum ServerAction {
    /// Check the request and seat the client in the voice room.
    JoinAudio,
    /// Take the client's answer as the remote description.
    SetRemoteDescription,
    /// Add the client's ICE candidate to the media connection.
    AddIceCandidate,
    /// Free the client's seat in its voice room and forget its channel.
    LeaveAudio,
    /// Log and drop the message: it is one that only the server sends, or an
    /// error report.
    Ignore,
}

/// The server's reaction to a message of kind `kind` from a client that has
/// (or has not) a media connection: answers and ICE candidates need a media
/// connection and are refused with `WebRTCConnectionNotInitialized` without
/// one. A `Disconnect` message is not handled by the server.
pub fn server_action(kind: MessageKind, has_connection: bool) -> (res: Result<ServerAction, Error>)
    requires
        kind != MessageKind::Disconnect,
    ensures
        match kind {
            MessageKind::JoinAudioChannel => res == Ok::<ServerAction, Error>(ServerAction::JoinAudio),
            MessageKind::WebRTCAnswer => if has_connection {
                res == Ok::<ServerAction, Error>(ServerAction::SetRemoteDescription)
            } else {
                res == Err::<ServerAction, Error>(Error::WebRTCConnectionNotInitialized)
            },
            MessageKind::IceCandidate => if has_connection {
                res == Ok::<ServerAction, Error>(ServerAction::AddIceCandidate)
            } else {
                res == Err::<ServerAction, Error>(Error::WebRTCConnectionNotInitialized)
            },
            MessageKind::DisconnectFromAudioChannel => res == Ok::<ServerAction, Error>(ServerAction::LeaveAudio),
            _ => res == Ok::<ServerAction, Error>(ServerAction::Ignore),
        },
{
    match kind {
        MessageKind::JoinAudioChannel => Ok(ServerAction::JoinAudio),
        MessageKind::WebRTCAnswer => if has_connection {
            Ok(ServerAction::SetRemoteDescription)
        } else {
            Err(Error::WebRTCConnectionNotInitialized)
        },
        MessageKind::IceCandidate => if has_connection {
            Ok(ServerAction::AddIceCandidate)
        } else {
            Err(Error::WebRTCConnectionNotInitialized)
        },
        MessageKind::DisconnectFromAudioChannel => Ok(ServerAction::LeaveAudio),
        _ => Ok(ServerAction::Ignore),
    }
}

/// What the client does with a message from the server.
#[derive(Debug, Clone, Copy, PartialEq, Eq)]
pub enum ClientAction {
    /// Add the server's ICE candidate to the media connection.
    AddIceCandidate,
    /// Answer the server's offer and send the answer back.
    AnswerOffer,
    /// Record that someone took a seat, and tell the user interface.
    SeatTaken,
    /// Record that someone left a seat, and tell the user interface.
    SeatFreed,
    /// Report the server's error.
    Fail(WebSocketError),
    /// Log and drop the message: it is one that only clients send, or it
    /// needs a media connection that does not exist.
    Ignore,
}

/// The client's reaction to a message of kind `kind` from the server when
/// it has (or has not) a media connection: ICE candidates and offers are
/// dropped without a media connection, messages that only clients send are
/// dropped, and an error report fails.
pub fn client_action(kind: MessageKind, has_connection: bool) -> (res: ClientAction)
    ensures
        res == match kind {
            MessageKind::IceCandidate => if has_connection { ClientAction::AddIceCandidate } else { ClientAction::Ignore },
            MessageKind::WebRTCOffer => if has_connection { ClientAction::AnswerOffer } else { ClientAction::Ignore },
            MessageKind::Error(e) => ClientAction::Fail(e),
            MessageKind::SomeoneJoinedAudioChannel => ClientAction::SeatTaken,
            MessageKind::SomeoneLeftAudioChannel => ClientAction::SeatFreed,
            _ => ClientAction::Ignore,
        },
{
    match kind {
        MessageKind::IceCandidate => if has_connection {
            ClientAction::AddIceCandidate
        } else {
            ClientAction::Ignore
        },
        MessageKind::WebRTCOffer => if has_connection {
            ClientAction::AnswerOffer
        } else {
            ClientAction::Ignore
        },
        MessageKind::Error(e) => ClientAction::Fail(e),
        MessageKind::SomeoneJoinedAudioChannel => ClientAction::SeatTaken,
        MessageKind::SomeoneLeftAudioChannel => ClientAction::SeatFreed,
        _ => ClientAction::Ignore,
    }
}

/// Whether an answer with this HTTP status (if any) means that the session
/// is no longer valid, so that the client logs out: status 401.
pub fn should_log_out(status: Option<u16>) -> (res: bool)
    ensures
        res == (status == Some(401u16)),
{
    match status {
        Some(s) => s == 401,
        None => false,
    }
}

} // verus!
