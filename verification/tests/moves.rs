use thiscord::channels::{Channel, ChannelType};
use thiscord::commands::{client_request_step, AudioAfter, AudioCommand, ClientRequest, DefaultSetting, Outgoing, StatusAfter};
use thiscord::activation::{use_activation_code, ActivationRow};
use thiscord::auth::UserRecord;
use thiscord::error::Error;
use thiscord::online::OnlineUser;
use thiscord::seating::Seating;
use thiscord::voice_room::ROOM_SIZE;

fn online(id: u128) -> OnlineUser {
    OnlineUser::new(UserRecord {
        id,
        username: format!("u{}", id),
        email: String::new(),
        password: String::new(),
        deleted: false,
        created_at: 0,
        activated: true,
    })
}

fn seats_of(rooms: &Seating, id: u128) -> Vec<(u128, usize)> {
    let mut found = Vec::new();
    for entry in rooms.rooms.iter() {
        let room = entry.value();
        for (s, person) in room.people.iter().enumerate() {
            if person.id == Some(id) {
                found.push((room.id, s));
            }
        }
    }
    found
}

#[test]
fn moving_between_channels_keeps_one_seat() {
    let mut rooms = Seating::new();
    let mut a = online(1);
    let mut b = online(2);
    assert_eq!(rooms.join_audio_channel(&mut a, 10, vec![]), Ok(0));
    assert_eq!(rooms.join_audio_channel(&mut b, 10, vec![]), Ok(1));
    assert_eq!(a.audio_channel, Some(10));
    assert_eq!(rooms.join_audio_channel(&mut a, 20, vec![]), Ok(0));
    assert_eq!(seats_of(&rooms, 1), vec![(20, 0)]);
    assert_eq!(seats_of(&rooms, 2), vec![(10, 1)]);
    assert_eq!(a.audio_channel, Some(20));
    assert_eq!(rooms.join_audio_channel(&mut b, 20, vec![]), Ok(1));
    assert_eq!(rooms.join_audio_channel(&mut a, 10, vec![]), Ok(0));
    assert_eq!(rooms.join_audio_channel(&mut a, 20, vec![]), Ok(0));
    assert_eq!(rooms.join_audio_channel(&mut a, 20, vec![]), Ok(0));
    assert_eq!(seats_of(&rooms, 1), vec![(20, 0)]);
    rooms.leave_audio_channel(&mut a);
    assert!(seats_of(&rooms, 1).is_empty());
    assert_eq!(a.audio_channel, None);
    assert_eq!(seats_of(&rooms, 2), vec![(20, 1)]);
    assert_eq!(rooms.rooms.len(), 2);
}

#[test]
fn full_room_leaves_the_user_seatless() {
    let mut rooms = Seating::new();
    for id in 0..ROOM_SIZE as u128 {
        let mut u = online(100 + id);
        assert!(rooms.join_audio_channel(&mut u, 30, vec![]).is_ok());
    }
    let mut a = online(1);
    assert_eq!(rooms.join_audio_channel(&mut a, 10, vec![]), Ok(0));
    assert_eq!(rooms.join_audio_channel(&mut a, 30, vec![]), Err(Error::RoomFull));
    assert!(seats_of(&rooms, 1).is_empty());
    assert_eq!(a.audio_channel, Some(10));
}

fn row(user_id: u128, code: &str, valid_until: Option<i64>) -> ActivationRow {
    ActivationRow { user_id, activation_code: code.to_string(), valid_until }
}

#[test]
fn activation_code_works_once() {
    let mut rows = vec![row(1, "123456", Some(500)), row(2, "654321", Some(500)), row(1, "111111", Some(500))];
    assert_eq!(use_activation_code(&mut rows, "123456", 100), Ok(Some(1)));
    assert_eq!(rows.len(), 1);
    assert_eq!(rows[0].user_id, 2);
    assert_eq!(use_activation_code(&mut rows, "123456", 100), Ok(None));
    assert_eq!(rows.len(), 1);
}

#[test]
fn expired_unknown_and_broken_codes() {
    let mut rows = vec![row(1, "123456", Some(50)), row(2, "000001", None)];
    assert_eq!(use_activation_code(&mut rows, "123456", 100), Ok(None));
    assert_eq!(use_activation_code(&mut rows, "999999", 100), Ok(None));
    assert_eq!(use_activation_code(&mut rows, "000001", 100), Err(Error::InvalidActivationCode));
    assert_eq!(rows.len(), 2);
    assert_eq!(use_activation_code(&mut rows, "123456", 50), Ok(Some(1)));
    assert_eq!(rows.len(), 1);
}

#[test]
fn listing_a_voice_channel_shows_its_seats() {
    let mut rooms = Seating::new();
    let mut a = online(7);
    assert_eq!(rooms.join_audio_channel(&mut a, 5, vec![]), Ok(0));
    let voice = Channel { id: 5, name: "Voice".to_string(), type_: ChannelType::Voice, hidden: false, server_id: 1, created_at: 0, updated_at: 0 };
    let listed = rooms.channel_with_users(voice.clone());
    assert_eq!(listed.users.len(), 1);
    assert_eq!((listed.users[0].id, listed.users[0].slot), (7, 0));
    let empty = rooms.channel_with_users(Channel { id: 6, ..voice.clone() });
    assert!(empty.users.is_empty());
    assert_eq!(rooms.rooms.len(), 2);
    let text = rooms.channel_with_users(Channel { id: 5, type_: ChannelType::Text, ..voice });
    assert!(text.users.is_empty());
}

#[test]
fn client_requests_decide_the_next_step() {
    let join = client_request_step(ClientRequest::JoinAudioChannel, false, true, true, true);
    assert_eq!((join.audio, join.status, join.send, join.failed), (AudioAfter::Replaced, StatusAfter::CallConnecting, Outgoing::JoinAudioChannel, false));
    let no_link = client_request_step(ClientRequest::JoinAudioChannel, true, false, true, true);
    assert_eq!((no_link.audio, no_link.send, no_link.failed), (AudioAfter::Kept, Outgoing::Nothing, true));
    let no_streams = client_request_step(ClientRequest::JoinAudioChannel, true, true, false, true);
    assert_eq!((no_streams.audio, no_streams.status, no_streams.failed), (AudioAfter::Replaced, StatusAfter::Unchanged, true));
    let leave = client_request_step(ClientRequest::DisconnectFromAudioChannel, true, true, true, true);
    assert!(leave.stop_audio);
    assert_eq!((leave.audio, leave.status, leave.send), (AudioAfter::Removed, StatusAfter::Online, Outgoing::DisconnectFromAudioChannel));
    let stuck = client_request_step(ClientRequest::DisconnectFromAudioChannel, true, true, true, false);
    assert_eq!((stuck.audio, stuck.send, stuck.failed), (AudioAfter::Removed, Outgoing::Nothing, true));
    let idle = client_request_step(ClientRequest::DisconnectFromAudioChannel, false, true, true, false);
    assert_eq!((idle.audio, idle.status, idle.failed), (AudioAfter::Kept, StatusAfter::Online, false));
    let quit = client_request_step(ClientRequest::AudioCommand(AudioCommand::Quit), true, true, true, true);
    assert_eq!(quit.audio, AudioAfter::Removed);
    let mic = client_request_step(ClientRequest::AudioCommand(AudioCommand::SetMic("usb".to_string())), false, true, true, true);
    assert!(!mic.apply_command);
    assert!(matches!(mic.remember, Some(DefaultSetting::Mic(ref n)) if n == "usb"));
    let mute = client_request_step(ClientRequest::AudioCommand(AudioCommand::Mute), true, true, true, true);
    assert!(mute.apply_command && mute.remember.is_none() && mute.audio == AudioAfter::Kept);
}
