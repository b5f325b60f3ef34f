//! Audio commands sent from the user interface, and the stored defaults they
//! change.

use vstd::prelude::*;

use crate::audio::{LastUsedAudioDevicesWString, PerUserBoost};
use crate::audio_config::AudioConfigDB;

verus! {

/// Settings to change in the stored audio settings; fields left `None` keep
/// their value.
#[derive(Debug, Clone)]
pub struct AudioConfigDBPartial {
    pub high_pass_filter: Option<bool>,
    pub echo_cancellation: Option<bool>,
    pub noise_suppression_level: Option<Option<i32>>,
    pub gain_controller: Option<bool>,
    pub input_mode: Option<i32>,
    pub ptt_key_code: Option<Option<String>>,
    pub vad_threshold: Option<Option<i32>>,
    pub global_attenuation: Option<Option<i32>>,
    pub global_attenuation_trigger: Option<Option<i32>>,
}

/// `new` if given, `old` otherwise.
pub open spec fn or_keep<T>(new: Option<T>, old: T) -> T {
    match new {
        Some(v) => v,
        None => old,
    }
}

impl AudioConfigDB {
    /// Takes over every setting that `partial` gives.
    pub fn partial_modify(&mut self, partial: AudioConfigDBPartial)
        ensures
            final(self).high_pass_filter == or_keep(partial.high_pass_filter, old(self).high_pass_filter),
            final(self).echo_cancellation == or_keep(partial.echo_cancellation, old(self).echo_cancellation),
            final(self).noise_suppression_level == or_keep(partial.noise_suppression_level, old(self).noise_suppression_level),
            final(self).gain_controller == or_keep(partial.gain_controller, old(self).gain_controller),
            final(self).input_mode == or_keep(partial.input_mode, old(self).input_mode),
            final(self).ptt_key_code == or_keep(partial.ptt_key_code, old(self).ptt_key_code),
            final(self).vad_threshold == or_keep(partial.vad_threshold, old(self).vad_threshold),
            final(self).global_attenuation == or_keep(partial.global_attenuation, old(self).global_attenuation),
            final(self).global_attenuation_trigger == or_keep(partial.global_attenuation_trigger, old(self).global_attenuation_trigger),
    {
        if let Some(v) = partial.high_pass_filter {
            self.high_pass_filter = v;
        }
        if let Some(v) = partial.echo_cancellation {
            self.echo_cancellation = v;
        }
        if let Some(v) = partial.noise_suppression_level {
            self.noise_suppression_level = v;
        }
        if let Some(v) = partial.gain_controller {
            self.gain_controller = v;
        }
        if let Some(v) = partial.input_mode {
            self.input_mode = v;
        }
        if let Some(v) = partial.ptt_key_code {
            self.ptt_key_code = v;
        }
        if let Some(v) = partial.vad_threshold {
            self.vad_threshold = v;
        }
        if let Some(v) = partial.global_attenuation {
            self.global_attenuation = v;
        }
        if let Some(v) = partial.global_attenuation_trigger {
            self.global_attenuation_trigger = v;
        }
    }
}

/// A command for the audio of a call.
#[derive(Debug, Clone)]
pub enum AudioCommand {
    Mute,
    Unmute,
    Deafen,
    Undeafen,
    Quit,
    SetMic(String),
    SetSpeaker(String),
    SetMicBoost(i32),
    SetSpeakerBoost(i32),
    SetUserBoost { user_id: u128, boost_level: i32 },
    ChangeSetting { cfg: AudioConfigDBPartial },
}

/// A stored default that a command changes.
#[derive(Debug, Clone)]
pub enum DefaultSetting {
    Mic(String),
    Speaker(String),
    MicBoost(i32),
    SpeakerBoost(i32),
    UserBoost(PerUserBoost),
}

/// The stored default a command changes, so that it also holds for later
/// calls: the chosen devices and volumes; nothing for the other commands.
pub open spec fn default_setting_of(command: AudioCommand) -> Option<DefaultSetting> {
    match command {
        AudioCommand::SetMic(name) => Some(DefaultSetting::Mic(name)),
        AudioCommand::SetSpeaker(name) => Some(DefaultSetting::Speaker(name)),
        AudioCommand::SetMicBoost(b) => Some(DefaultSetting::MicBoost(b)),
        AudioCommand::SetSpeakerBoost(b) => Some(DefaultSetting::SpeakerBoost(b)),
        AudioCommand::SetUserBoost { user_id, boost_level } => Some(
            DefaultSetting::UserBoost(PerUserBoost { user_id: Some(user_id), boost_level }),
        ),
        _ => None,
    }
}

/// The stored default a command changes.
pub fn default_setting_for(command: AudioCommand) -> (res: Option<DefaultSetting>)
    ensures
        res == default_setting_of(command),
        match command {
            AudioCommand::SetMic(name) => res == Some(DefaultSetting::Mic(name)),
            AudioCommand::SetSpeaker(name) => res == Some(DefaultSetting::Speaker(name)),
            AudioCommand::SetMicBoost(b) => res == Some(DefaultSetting::MicBoost(b)),
            AudioCommand::SetSpeakerBoost(b) => res == Some(DefaultSetting::SpeakerBoost(b)),
            AudioCommand::SetUserBoost { user_id, boost_level } => res == Some(
                DefaultSetting::UserBoost(PerUserBoost { user_id: Some(user_id), boost_level }),
            ),
            _ => res is None,
        },
{
    match command {
        AudioCommand::SetMic(name) => Some(DefaultSetting::Mic(name)),
        AudioCommand::SetSpeaker(name) => Some(DefaultSetting::Speaker(name)),
        AudioCommand::SetMicBoost(b) => Some(DefaultSetting::MicBoost(b)),
        AudioCommand::SetSpeakerBoost(b) => Some(DefaultSetting::SpeakerBoost(b)),
        AudioCommand::SetUserBoost { user_id, boost_level } => Some(
            DefaultSetting::UserBoost(PerUserBoost { user_id: Some(user_id), boost_level }),
        ),
        _ => None,
    }
}

/// Only choosing a device or a volume changes a stored default, each to the
/// chosen value; muting, unmuting, deafening, undeafening, quitting and
/// changing processing settings store nothing.
pub proof fn lemma_only_choices_are_remembered(command: AudioCommand)
    ensures
        command is Mute || command is Unmute || command is Deafen || command is Undeafen || command is Quit
            || command is ChangeSetting ==> default_setting_of(command) is None,
        command matches AudioCommand::SetMic(n) ==> default_setting_of(command) == Some(DefaultSetting::Mic(n)),
        command matches AudioCommand::SetSpeaker(n) ==> default_setting_of(command) == Some(DefaultSetting::Speaker(n)),
        command matches AudioCommand::SetMicBoost(b) ==> default_setting_of(command) == Some(DefaultSetting::MicBoost(b)),
        command matches AudioCommand::SetSpeakerBoost(b) ==> default_setting_of(command) == Some(
            DefaultSetting::SpeakerBoost(b),
        ),
        command matches AudioCommand::SetUserBoost { user_id, boost_level } ==> default_setting_of(command) == Some(
            DefaultSetting::UserBoost(PerUserBoost { user_id: Some(user_id), boost_level }),
        ),
{
}

/// A request from the client's user interface to its WebSocket task.
#[derive(Debug, Clone)]
pub enum ClientRequest {
    /// Join the audio of a voice channel.
    JoinAudioChannel,
    /// Leave the audio of the current voice channel.
    DisconnectFromAudioChannel,
    /// Close the connection; the task does not handle it.
    Disconnect,
    /// A command for the audio of the call.
    AudioCommand(AudioCommand),
}

/// What becomes of the client's audio element.
#[derive(Debug, Clone, Copy, PartialEq, Eq)]
pub enum AudioAfter {
    Kept,
    /// A new audio element, set to the joined channel.
    Replaced,
    Removed,
}

/// The connection status shown after a request.
#[derive(Debug, Clone, Copy, PartialEq, Eq)]
pub enum StatusAfter {
    Unchanged,
    /// On a call in the joined channel, connecting.
    CallConnecting,
    Online,
}

/// The message sent to the server after a request.
#[derive(Debug, Clone, Copy, PartialEq, Eq)]
pub enum Outgoing {
    Nothing,
    JoinAudioChannel,
    DisconnectFromAudioChannel,
}

/// What the client's WebSocket task does for one request.
#[derive(Debug, Clone)]
pub struct RequestStep {
    pub audio: AudioAfter,
    /// Clear the channel of the audio element and stop it, before it is
    /// removed.
    pub stop_audio: bool,
    /// Apply the audio command to the audio element.
    pub apply_command: bool,
    pub status: StatusAfter,
    pub send: Outgoing,
    /// The default to store for later calls.
    pub remember: Option<DefaultSetting>,
    /// The request ends with an error.
    pub failed: bool,
}

/// What the client's WebSocket task does for `request`, given whether it has
/// an audio element, and the outcomes of the steps that can fail: creating
/// the media connection, starting the audio streams, and stopping the audio
/// element.
///
/// - Joining creates a media connection (on failure nothing changes), then a
///   new audio element set to the channel; when its streams do not start the
///   request fails there; otherwise the status becomes "connecting" and the
///   join is sent.
/// - Leaving clears and stops the audio element, if there is one, and
///   removes it; when stopping fails the request fails there; otherwise the
///   leave is sent and the status becomes online.
/// - An audio command is applied to the audio element, if there is one
///   (`Quit` also removes it; failures of the command are only reported), and
///   the setting it changes is stored as the new default either way.
/// - `Disconnect` is not handled.
pub fn client_request_step(
    request: ClientRequest,
    has_audio: bool,
    connection_ok: bool,
    streams_ok: bool,
    quit_ok: bool,
) -> (res: RequestStep)
    requires
        !(request is Disconnect),
    ensures
        match request {
            ClientRequest::JoinAudioChannel => {
                &&& res.audio == if connection_ok { AudioAfter::Replaced } else { AudioAfter::Kept }
                &&& !res.stop_audio && !res.apply_command && res.remember.is_none()
                &&& res.failed == !(connection_ok && streams_ok)
                &&& res.status == if connection_ok && streams_ok { StatusAfter::CallConnecting } else { StatusAfter::Unchanged }
                &&& res.send == if connection_ok && streams_ok { Outgoing::JoinAudioChannel } else { Outgoing::Nothing }
            },
            ClientRequest::DisconnectFromAudioChannel => {
                &&& res.audio == if has_audio { AudioAfter::Removed } else { AudioAfter::Kept }
                &&& res.stop_audio == has_audio
                &&& !res.apply_command && res.remember.is_none()
                &&& res.failed == (has_audio && !quit_ok)
                &&& res.status == if has_audio && !quit_ok { StatusAfter::Unchanged } else { StatusAfter::Online }
                &&& res.send == if has_audio && !quit_ok { Outgoing::Nothing } else { Outgoing::DisconnectFromAudioChannel }
            },
            ClientRequest::AudioCommand(c) => {
                &&& res.audio == if has_audio && c is Quit { AudioAfter::Removed } else { AudioAfter::Kept }
                &&& !res.stop_audio
                &&& res.apply_command == has_audio
                &&& res.status == StatusAfter::Unchanged
                &&& res.send == Outgoing::Nothing
                &&& res.remember == default_setting_of(c)
                &&& !res.failed
            },
            ClientRequest::Disconnect => true,
        },
{
    let nothing = RequestStep {
        audio: AudioAfter::Kept,
        stop_audio: false,
        apply_command: false,
        status: StatusAfter::Unchanged,
        send: Outgoing::Nothing,
        remember: None,
        failed: false,
    };
    match request {
        ClientRequest::JoinAudioChannel => {
            if !connection_ok {
                RequestStep { failed: true, ..nothing }
            } else if !streams_ok {
                RequestStep { audio: AudioAfter::Replaced, failed: true, ..nothing }
            } else {
                RequestStep {
                    audio: AudioAfter::Replaced,
                    status: StatusAfter::CallConnecting,
                    send: Outgoing::JoinAudioChannel,
                    ..nothing
                }
            }
        },
        ClientRequest::DisconnectFromAudioChannel => {
            if has_audio && !quit_ok {
                RequestStep { audio: AudioAfter::Removed, stop_audio: true, failed: true, ..nothing }
            } else {
                RequestStep {
                    audio: if has_audio { AudioAfter::Removed } else { AudioAfter::Kept },
                    stop_audio: has_audio,
                    status: StatusAfter::Online,
                    send: Outgoing::DisconnectFromAudioChannel,
                    ..nothing
                }
            }
        },
        ClientRequest::AudioCommand(c) => {
            let quits = match c {
                AudioCommand::Quit => true,
                _ => false,
            };
            RequestStep {
                audio: if has_audio && quits { AudioAfter::Removed } else { AudioAfter::Kept },
                apply_command: has_audio,
                remember: default_setting_for(c),
                ..nothing
            }
        },
        ClientRequest::Disconnect => nothing,
    }
}

impl LastUsedAudioDevicesWString {
    /// Records a chosen device or device volume as the new default; a
    /// per-person volume is stored elsewhere and leaves this row unchanged.
    pub fn remember(&mut self, setting: DefaultSetting)
        ensures
            final(self).id == old(self).id,
            final(self).mic == match setting {
                DefaultSetting::Mic(n) => Some(n),
                _ => old(self).mic,
            },
            final(self).speaker == match setting {
                DefaultSetting::Speaker(n) => Some(n),
                _ => old(self).speaker,
            },
            final(self).mic_boost == match setting {
                DefaultSetting::MicBoost(b) => Some(b),
                _ => old(self).mic_boost,
            },
            final(self).speaker_boost == match setting {
                DefaultSetting::SpeakerBoost(b) => Some(b),
                _ => old(self).speaker_boost,
            },
    {
        match setting {
            DefaultSetting::Mic(n) => self.mic = Some(n),
            DefaultSetting::Speaker(n) => self.speaker = Some(n),
            DefaultSetting::MicBoost(b) => self.mic_boost = Some(b),
            DefaultSetting::SpeakerBoost(b) => self.speaker_boost = Some(b),
            DefaultSetting::UserBoost(_) => {},
        }
    }
}

} // verus!
