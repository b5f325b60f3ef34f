use thiscord::auth::UserRecord;
use thiscord::channels::{convert_channel_to_with_users, default_channels, Channel, ChannelType};
use thiscord::error::Error;
use thiscord::voice_room::{MaybeVoicePerson, Room, VoiceRoom, ROOM_SIZE};

fn user(id: u128, name: &str) -> UserRecord {
    UserRecord {
        id,
        username: name.to_string(),
        email: String::new(),
        password: String::new(),
        deleted: false,
        created_at: 0,
        activated: true,
    }
}

fn channel(type_: ChannelType) -> Channel {
    Channel { id: 1, name: "Voice".to_string(), type_, hidden: false, server_id: 2, created_at: 0, updated_at: 0 }
}

#[test]
fn empty_seat() {
    let p: MaybeVoicePerson<u8> = MaybeVoicePerson::new();
    assert!(p.id.is_none() && p.name.is_none());
    assert_eq!(p.recv_tracks.len(), ROOM_SIZE);
}

#[test]
fn set_and_reset_person() {
    let mut p: MaybeVoicePerson<u8> = MaybeVoicePerson::new();
    p.set_person(&user(3, "c"), vec![10, 11, 12]);
    assert_eq!(p.id, Some(3));
    assert_eq!(p.name.as_deref(), Some("c"));
    assert_eq!(p.recv_tracks[0..4], [Some(10), Some(11), Some(12), None]);
    p.set_person(&user(4, "d"), (0..12).collect());
    assert_eq!(p.recv_tracks, (0..10).map(Some).collect::<Vec<Option<u8>>>());
    p.reset_person();
    assert!(p.id.is_none() && p.name.is_none());
    assert!(p.recv_tracks.iter().all(|t| t.is_none()));
}

#[test]
fn join_takes_first_free_seat() {
    let mut room: VoiceRoom<u8> = VoiceRoom::new(9);
    assert_eq!(room.join_person(&user(1, "a"), vec![]), Ok(0));
    assert_eq!(room.join_person(&user(2, "b"), vec![]), Ok(1));
    assert_eq!(room.leave_person(1), Ok(()));
    assert_eq!(room.join_person(&user(3, "c"), vec![7]), Ok(0));
    assert_eq!(room.people[0].recv_tracks[0], Some(7));
    assert_eq!(room.people[1].name.as_deref(), Some("b"));
}

#[test]
fn full_room_refuses() {
    let mut room: VoiceRoom<u8> = VoiceRoom::new(9);
    for i in 0..ROOM_SIZE {
        assert_eq!(room.join_person(&user(i as u128, "x"), vec![]), Ok(i));
    }
    assert_eq!(room.join_person(&user(99, "late"), vec![]), Err(Error::RoomFull));
    assert!(room.people.iter().all(|p| p.id != Some(99)));
}

#[test]
fn leaving_unknown_person_fails() {
    let mut room: VoiceRoom<u8> = VoiceRoom::new(9);
    assert_eq!(room.leave_person(5), Err(Error::UserNotFoundInRoom));
    room.join_person(&user(5, "e"), vec![1, 2]).unwrap();
    assert_eq!(room.leave_person(5), Ok(()));
    assert!(room.people[0].recv_tracks.iter().all(|t| t.is_none()));
    assert_eq!(room.leave_person(5), Err(Error::UserNotFoundInRoom));
}

#[test]
fn join_then_leave_restores_seats() {
    let mut room: VoiceRoom<u8> = VoiceRoom::new(9);
    room.join_person(&user(1, "a"), vec![]).unwrap();
    room.join_person(&user(2, "b"), vec![]).unwrap();
    let before: Vec<Option<u128>> = room.people.iter().map(|p| p.id).collect();
    room.join_person(&user(3, "c"), vec![]).unwrap();
    room.leave_person(3).unwrap();
    let after: Vec<Option<u128>> = room.people.iter().map(|p| p.id).collect();
    assert_eq!(before, after);
}

#[test]
fn tracks_of_a_seat_go_to_every_other_seat() {
    let room: VoiceRoom<u8> = VoiceRoom::new(1);
    assert_eq!(room.get_track_i_of_all(3), vec![0, 1, 2, 4, 5, 6, 7, 8, 9]);
    assert_eq!(room.get_track_i_of_all(0), vec![1, 2, 3, 4, 5, 6, 7, 8, 9]);
    assert_eq!(room.get_track_i_of_all(9), vec![0, 1, 2, 3, 4, 5, 6, 7, 8]);
}

#[test]
fn voice_channel_lists_seated_people() {
    let mut room: VoiceRoom<u8> = VoiceRoom::new(1);
    room.join_person(&user(1, "a"), vec![]).unwrap();
    room.join_person(&user(2, "b"), vec![]).unwrap();
    room.leave_person(1).unwrap();
    let listed = convert_channel_to_with_users(channel(ChannelType::Voice), &room);
    assert_eq!(listed.users.len(), 1);
    assert_eq!(listed.users[0].id, 2);
    assert_eq!(listed.users[0].username, "b");
    assert_eq!(listed.users[0].slot, 1);
    assert!(listed.users[0].boost.is_none());
    let text = convert_channel_to_with_users(channel(ChannelType::Text), &room);
    assert!(text.users.is_empty());
    assert_eq!(text.channel.name, "Voice");
}

#[test]
fn new_servers_get_two_channels() {
    let chans = default_channels(42);
    assert_eq!(chans.len(), 2);
    assert_eq!(chans[0].name, "General");
    assert_eq!(chans[0].type_, ChannelType::Text);
    assert_eq!(chans[1].name, "Voice");
    assert_eq!(chans[1].type_, ChannelType::Voice);
    assert!(chans.iter().all(|c| !c.hidden && c.server_id == 42));
}

#[test]
fn media_room_seats_connections() {
    let mut room: Room<&str, u8> = Room::new(5);
    let (idx, others) = room.join_user("first", vec![1, 2, 3]).unwrap();
    assert_eq!(idx, 0);
    assert_eq!(others, vec![1, 2, 3, 4, 5, 6, 7, 8, 9]);
    assert_eq!(room.audio_tracks[0][0..4], [Some(1), Some(2), Some(3), None]);
    let (idx, _) = room.join_user("second", vec![]).unwrap();
    assert_eq!(idx, 1);
    for i in 2..ROOM_SIZE {
        room.join_user("more", vec![]).unwrap();
        assert_eq!(room.connections[i], Some("more"));
    }
    assert!(matches!(room.join_user("late", vec![]), Err(Error::RoomFull)));
    assert_eq!(room.first_free_slot(), None);
}
