//! Verified core of a voice-chat service: permission rules, voice-room seat
//! management, audio settings, session and update state handling.

use vstd::prelude::*;
use vstd::string::*;

pub mod activation;
pub mod audio;
pub mod audio_config;
pub mod audio_devices;
pub mod auth;
pub mod channels;
pub mod commands;
pub mod error;
pub mod handlers;
pub mod ids;
pub mod online;
pub mod permissions;
pub mod protocol;
pub mod seating;
pub mod servers;
pub mod status;
pub mod text;
pub mod turn;
pub mod voice_room;

verus! {

/// The greeting text sent back to a caller that names itself.
pub open spec fn greeting(name: Seq<char>) -> Seq<char> {
    "Hello, "@ + name + "! You've been greeted from Rust!"@
}

/// Greets `name`: `Hello, <name>! You've been greeted from Rust!`.
pub fn greet(name: &str) -> (res: String)
    ensures
        res@ == greeting(name@),
{
    let mut res = String::from_str("Hello, ");
    res.append(name);
    res.append("! You've been greeted from Rust!");
    res
}

} // verus!
