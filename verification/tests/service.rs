use thiscord::protocol::{client_action, server_action, should_log_out, ClientAction, MessageKind, ServerAction};
use thiscord::channels::{Channel, ChannelType, NewChannel};
use thiscord::error::Error;
use thiscord::handlers::{
    activation_reply, check_audio_join, check_create_channel, check_image_field, check_server_name, check_signup,
    join_server_reply, list_visible_channels, login_reply, signup_reply, ConnectionString, TokenQuery, WebSocketError,
};
use thiscord::permissions::{
    all_permission_types, create_channel_permission, default_owner_permissions, default_user_permissions,
    join_audio_permission, permissions_of_user, visible_channels, PermissionType,
};
use thiscord::servers::{create_connection_string, server_image_fields, server_image_url, text_after_last, upload_file_name};

fn chan(id: u128, hidden: bool) -> Channel {
    Channel { id, name: format!("c{}", id), type_: ChannelType::Text, hidden, server_id: 1, created_at: 0, updated_at: 0 }
}

#[test]
fn owner_gets_every_right_user_a_few() {
    let all = all_permission_types();
    assert_eq!(all.len(), 9);
    assert_eq!(default_owner_permissions(), all);
    let user = default_user_permissions();
    assert_eq!(
        user,
        vec![
            PermissionType::ListChannels,
            PermissionType::ListUsersInServer,
            PermissionType::JoinAudioChannel,
            PermissionType::SendMessages,
            PermissionType::DeleteMessagesSelf,
        ]
    );
    assert!(user.iter().all(|p| all.contains(p)));
}

#[test]
fn rights_needed_for_hidden_channels() {
    assert_eq!(create_channel_permission(true), PermissionType::CreateHiddenChannel);
    assert_eq!(create_channel_permission(false), PermissionType::CreateChannel);
    assert_eq!(join_audio_permission(true), PermissionType::JoinAudioChannelInHiddenChannels);
    assert_eq!(join_audio_permission(false), PermissionType::JoinAudioChannel);
}

#[test]
fn channel_listing_filters_by_rights() {
    let chans = vec![chan(1, false), chan(2, true), chan(3, false)];
    let ids = |v: Vec<Channel>| v.into_iter().map(|c| c.id).collect::<Vec<_>>();
    assert_eq!(ids(visible_channels(chans.clone(), true, false)), vec![1, 3]);
    assert_eq!(ids(visible_channels(chans.clone(), false, true)), vec![2]);
    assert_eq!(ids(visible_channels(chans.clone(), true, true)), vec![1, 2, 3]);
    assert!(visible_channels(chans, false, false).is_empty());
}

#[test]
fn user_permissions_from_rows() {
    let none = permissions_of_user(vec![]);
    assert_eq!(none.role, "none");
    assert!(none.permission_type.is_empty());
    let p = permissions_of_user(vec![
        ("owner".to_string(), Some(PermissionType::ListChannels)),
        ("owner".to_string(), None),
        ("owner".to_string(), Some(PermissionType::SendMessages)),
    ]);
    assert_eq!(p.role, "owner");
    assert_eq!(p.permission_type, vec![PermissionType::ListChannels, PermissionType::SendMessages]);
}

#[test]
fn image_paths() {
    assert_eq!(text_after_last("a/b/c.png", '/'), "c.png");
    assert_eq!(text_after_last("plain", '/'), "plain");
    assert_eq!(text_after_last("dir/", '/'), "");
    assert_eq!(server_image_url("../images/server/1234.png"), "static/server/1234.png");
    assert_eq!(server_image_url("x.jpg"), "static/server/x.jpg");
    let (url, path) = server_image_fields(Some("../images/server/a.gif".to_string()));
    assert_eq!(url.as_deref(), Some("static/server/a.gif"));
    assert_eq!(path.as_deref(), Some("../images/server/a.gif"));
    assert_eq!(server_image_fields(None), (None, None));
}

#[test]
fn upload_names_keep_the_extension() {
    let name = upload_file_name("photo.final.PNG");
    assert!(name.starts_with("../images/server/"));
    assert!(name.ends_with(".PNG"));
    assert_eq!(name.len(), "../images/server/".len() + 36 + 4);
    let bare = upload_file_name("noext");
    assert!(bare.ends_with(".noext"));
    assert_ne!(upload_file_name("a.png"), upload_file_name("a.png"));
}

#[test]
fn upload_names_use_version_4_uuids() {
    for _ in 0..20 {
        let name = upload_file_name("a.png");
        let id = &name["../images/server/".len().."../images/server/".len() + 36];
        assert_eq!(&id[14..15], "4");
        assert!("89ab".contains(&id[19..20]));
    }
}

#[test]
fn connection_strings() {
    let free = |_: &str| -> Result<bool, String> { Ok(false) };
    let s = create_connection_string(&free).unwrap().unwrap();
    assert_eq!(s.len(), 8);
    assert!(s.chars().all(|c| c.is_ascii_alphanumeric()));
    let taken = |_: &str| -> Result<bool, String> { Ok(true) };
    assert_eq!(create_connection_string(&taken).unwrap(), Err(Error::ConnectionStringGenerationFailed));
    let broken = |_: &str| -> Result<bool, String> { Err("db down".to_string()) };
    assert_eq!(create_connection_string(&broken), Err("db down".to_string()));
}

#[test]
fn login_answers() {
    let r = login_reply(Ok(true), Ok(()));
    assert_eq!((r.status, r.body.as_str()), (200, "Logged in"));
    let r = login_reply(Ok(false), Ok(()));
    assert_eq!((r.status, r.body.as_str()), (401, "Invalid credentials"));
    let r = login_reply(Err("boom".to_string()), Ok(()));
    assert_eq!((r.status, r.body.as_str()), (500, "boom"));
    let r = login_reply(Ok(true), Err("no session".to_string()));
    assert_eq!((r.status, r.body.as_str()), (500, "no session"));
}

#[test]
fn signup_answers() {
    let yes = |_: &str| -> Result<bool, String> { Ok(true) };
    let no = |_: &str| -> Result<bool, String> { Ok(false) };
    let fail = |_: &str| -> Result<bool, String> { Err("db".to_string()) };
    let r = check_signup("a", "a@x", &yes, &fail).unwrap().unwrap();
    assert_eq!((r.status, r.body.as_str()), (400, "Username already exists"));
    let r = check_signup("a", "a@x", &no, &yes).unwrap().unwrap();
    assert_eq!((r.status, r.body.as_str()), (400, "Email already exists"));
    assert!(check_signup("a", "a@x", &no, &no).unwrap().is_none());
    assert_eq!(check_signup("a", "a@x", &no, &fail).unwrap_err(), "db");
    let r = signup_reply(Ok(()));
    assert_eq!((r.status, r.body.as_str()), (200, "Signed up"));
    let r = signup_reply(Err("x".to_string()));
    assert_eq!(r.status, 500);
}

#[test]
fn activation_answers() {
    let r = activation_reply(Ok(true));
    assert_eq!((r.status, r.body.as_str()), (200, "User activated"));
    let r = activation_reply(Ok(false));
    assert_eq!((r.status, r.body.as_str()), (400, "Invalid token"));
    let r = activation_reply(Err(Error::InvalidActivationCode.to_string()));
    assert_eq!((r.status, r.body.as_str()), (500, "Invalid Activation Code"));
    let q = TokenQuery { token: "123456".to_string() };
    assert_eq!(q.token.len(), 6);
}

#[test]
fn creating_a_channel_needs_the_right() {
    let hidden = NewChannel { name: "h".to_string(), type_: ChannelType::Text, hidden: true, server_id: 1 };
    let only_plain = |p: PermissionType| -> Result<bool, ()> { Ok(p == PermissionType::CreateChannel) };
    let r = check_create_channel(&hidden, &only_plain).unwrap().unwrap();
    assert_eq!((r.status, r.body.as_str()), (403, "Permission denied"));
    let plain = NewChannel { hidden: false, ..hidden };
    assert!(check_create_channel(&plain, &only_plain).unwrap().is_none());
}

#[test]
fn listing_channels_asks_both_rights() {
    let chans = vec![chan(1, false), chan(2, true)];
    let hidden_only = |p: PermissionType| -> Result<bool, ()> { Ok(p == PermissionType::ListHiddenChannels) };
    let listed = list_visible_channels(chans.clone(), &hidden_only).unwrap();
    assert_eq!(listed.into_iter().map(|c| c.id).collect::<Vec<_>>(), vec![2]);
    let broken = |_: PermissionType| -> Result<bool, ()> { Err(()) };
    assert!(list_visible_channels(chans, &broken).is_err());
}

#[test]
fn joining_audio_checks_channel_and_right() {
    let may_join_plain = |p: PermissionType| -> Result<bool, ()> { Ok(p == PermissionType::JoinAudioChannel) };
    assert_eq!(check_audio_join(None, &may_join_plain).unwrap().unwrap_err(), WebSocketError::NotFound);
    assert_eq!(check_audio_join(Some(chan(2, true)), &may_join_plain).unwrap().unwrap_err(), WebSocketError::NotAuthorized);
    assert_eq!(check_audio_join(Some(chan(3, false)), &may_join_plain).unwrap().unwrap().id, 3);
}

#[test]
fn server_form_checks() {
    let r = check_image_field(None, Some("image/png".to_string())).unwrap_err();
    assert_eq!((r.status, r.body.as_str()), (400, "Server image has no filename"));
    let r = check_image_field(Some("a.png".to_string()), None).unwrap_err();
    assert_eq!((r.status, r.body.as_str()), (400, "Server image has no content type"));
    let r = check_image_field(Some("a.png".to_string()), Some("text/plain".to_string())).unwrap_err();
    assert_eq!((r.status, r.body.as_str()), (400, "Invalid image type"));
    let r = check_image_field(Some("a.png".to_string()), Some("image".to_string())).unwrap_err();
    assert_eq!(r.body, "Invalid image type");
    assert_eq!(check_image_field(Some("a.png".to_string()), Some("image/png".to_string())).unwrap(), "a.png");
    let r = check_server_name(None).unwrap_err();
    assert_eq!((r.status, r.body.as_str()), (400, "Server name is required"));
    assert_eq!(check_server_name(Some("S".to_string())).unwrap(), "S");
}

#[test]
fn joining_a_server_answers() {
    let r = join_server_reply(Ok(None), Ok(()));
    assert_eq!((r.status, r.body.as_str()), (400, "Server not found"));
    let r = join_server_reply(Ok(Some(1)), Ok(()));
    assert_eq!((r.status, r.body.as_str()), (200, "Joined server successfully"));
    let r = join_server_reply(Ok(Some(1)), Err("dup".to_string()));
    assert_eq!((r.status, r.body.as_str()), (500, "dup"));
    let r = join_server_reply(Err("db".to_string()), Ok(()));
    assert_eq!(r.status, 500);
    let c = ConnectionString { connection_string: "abcd1234".to_string() };
    assert_eq!(c.connection_string.len(), 8);
}

#[test]
fn error_texts() {
    assert_eq!(Error::RoomFull.to_string(), "Room is full");
    assert_eq!(Error::InvalidCredentials.to_string(), "Username or password is incorrect");
    assert_eq!(Error::PasswordHash("bad".to_string()).to_string(), "Password hash error: bad");
    assert_eq!(Error::UserNotFoundInRoom.to_string(), "UserNotFound in the room");
}

#[test]
fn message_handling_on_each_side() {
    assert_eq!(server_action(MessageKind::JoinAudioChannel, false), Ok(ServerAction::JoinAudio));
    assert_eq!(server_action(MessageKind::WebRTCAnswer, true), Ok(ServerAction::SetRemoteDescription));
    assert_eq!(server_action(MessageKind::WebRTCAnswer, false), Err(Error::WebRTCConnectionNotInitialized));
    assert_eq!(server_action(MessageKind::IceCandidate, false), Err(Error::WebRTCConnectionNotInitialized));
    assert_eq!(server_action(MessageKind::IceCandidate, true), Ok(ServerAction::AddIceCandidate));
    assert_eq!(server_action(MessageKind::DisconnectFromAudioChannel, false), Ok(ServerAction::LeaveAudio));
    assert_eq!(server_action(MessageKind::WebRTCOffer, true), Ok(ServerAction::Ignore));
    assert_eq!(client_action(MessageKind::IceCandidate, true), ClientAction::AddIceCandidate);
    assert_eq!(client_action(MessageKind::IceCandidate, false), ClientAction::Ignore);
    assert_eq!(client_action(MessageKind::WebRTCOffer, true), ClientAction::AnswerOffer);
    assert_eq!(client_action(MessageKind::Error(WebSocketError::NotFound), true), ClientAction::Fail(WebSocketError::NotFound));
    assert_eq!(client_action(MessageKind::SomeoneJoinedAudioChannel, false), ClientAction::SeatTaken);
    assert_eq!(client_action(MessageKind::SomeoneLeftAudioChannel, false), ClientAction::SeatFreed);
    assert_eq!(client_action(MessageKind::JoinAudioChannel, true), ClientAction::Ignore);
    assert!(should_log_out(Some(401)));
    assert!(!should_log_out(Some(403)));
    assert!(!should_log_out(None));
}
