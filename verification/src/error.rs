use vstd::prelude::*;

verus! {

/// Failures of the service's own rules.
///
/// Failures that come from storage, mail, the network or the file system
/// are reported by the program around the library, not here.
#[derive(Debug, Clone, PartialEq, Eq)]
pub enum Error {
    /// Username or password is incorrect.
    InvalidCredentials,
    /// Every seat of the voice room is taken.
    RoomFull,
    /// A stored password hash could not be read.
    PasswordHash(String),
    /// The activation record has no expiry time.
    InvalidActivationCode,
    /// The given person does not sit in the voice room.
    UserNotFoundInRoom,
    /// No free connection string was found.
    ConnectionStringGenerationFailed,
    /// A file name without a usable extension.
    InvalidFileName(String),
    /// A WebRTC message arrived before the WebRTC connection was set up.
    WebRTCConnectionNotInitialized,
}

} // verus!
