use thiscord::auth::UserRecord;
use thiscord::servers::upload_file_name;
use thiscord::online::{OnlineUser, Server, UsersActiveServers};
use thiscord::status::{
    call_status_for, download_progress, on_call_status, CallStatus, DownloadProgress, LoginStatus, PeerConnectionState,
    Session, SessionWString, Status, UpdateState,
};
use thiscord::text::i64_to_string;
use thiscord::turn::{generate_turn_credentials, turn_credentials_at, turn_credentials_for};

fn online(id: u128) -> OnlineUser {
    OnlineUser::new(UserRecord {
        id,
        username: format!("u{}", id),
        email: String::new(),
        password: String::new(),
        deleted: false,
        created_at: 0,
        activated: true,
    })
}

fn server(id: u128) -> Server {
    Server { id, name: format!("s{}", id), connection_string: "abcdefgh".to_string(), image_url: None, image_path: None }
}

#[test]
fn call_status_mapping() {
    assert_eq!(call_status_for(PeerConnectionState::New), CallStatus::Connecting);
    assert_eq!(call_status_for(PeerConnectionState::Unspecified), CallStatus::Connecting);
    assert_eq!(call_status_for(PeerConnectionState::Connecting), CallStatus::Connecting);
    assert_eq!(call_status_for(PeerConnectionState::Connected), CallStatus::Connected);
    assert_eq!(call_status_for(PeerConnectionState::Disconnected), CallStatus::Disconnected);
    assert_eq!(call_status_for(PeerConnectionState::Failed), CallStatus::Failed);
    assert_eq!(call_status_for(PeerConnectionState::Closed), CallStatus::Closed);
    match on_call_status("General".to_string(), PeerConnectionState::Connected) {
        Status::OnCall(name, s) => {
            assert_eq!(name, "General");
            assert_eq!(s, CallStatus::Connected);
        },
        _ => panic!("on call expected"),
    }
}

#[test]
fn update_texts() {
    assert_eq!(UpdateState::Checking.to_string(), "Checking for updates...");
    assert_eq!(UpdateState::Downloading.to_string(), "Downloading updates...");
    assert_eq!(UpdateState::Installing.to_string(), "Installing updates...");
    assert_eq!(UpdateState::Completed.to_string(), "Updates completed successfully.");
    assert_eq!(UpdateState::Error("disk full".to_string()).to_string(), "Error occurred: disk full");
}

#[test]
fn download_percentages() {
    assert_eq!(download_progress(0, 50, 200), (50, DownloadProgress(25)));
    assert_eq!(download_progress(50, 150, 200), (200, DownloadProgress(100)));
    assert_eq!(download_progress(10, 0, 3), (10, DownloadProgress(333)));
}

#[test]
fn login_status_negation() {
    assert!(LoginStatus::LoggedOut.not());
    assert!(!LoginStatus::LoggedIn(Session::default()).not());
}

#[test]
fn sessions_survive_storage() {
    let s = Session::new("cookie=1".to_string(), 0x67e5504410b1426f9247bb680e5fe0c8, "alice".to_string());
    assert_eq!(s.id, 0);
    let stored = SessionWString::from(s.clone());
    assert_eq!(stored.user_id, "67e55044-10b1-426f-9247-bb680e5fe0c8");
    let back = Session::from(stored);
    assert_eq!(back.user_id, s.user_id);
    assert_eq!(back.token, "cookie=1");
    assert_eq!(back.username, "alice");
    let broken = SessionWString { id: 3, token: "t".to_string(), user_id: "nope".to_string(), username: "b".to_string() };
    assert_eq!(Session::from(broken).user_id, 0);
    let d = SessionWString::default();
    assert!(d.token.is_empty() && d.user_id.is_empty());
}

#[test]
fn uuid_text_forms() {
    let stored = |user_id: u128| {
        SessionWString::from(Session { id: 1, token: "t".to_string(), user_id, username: "u".to_string() }).user_id
    };
    let read = |text: &str| {
        Session::from(SessionWString { id: 1, token: "t".to_string(), user_id: text.to_string(), username: "u".to_string() })
            .user_id
    };
    assert_eq!(stored(0), "00000000-0000-0000-0000-000000000000");
    assert_eq!(stored(u128::MAX), "ffffffff-ffff-ffff-ffff-ffffffffffff");
    assert_eq!(read("67e55044-10b1-426f-9247-bb680e5fe0c8"), 0x67e5504410b1426f9247bb680e5fe0c8);
    assert_eq!(read("67e5504410b1426f9247bb680e5fe0c8"), 0x67e5504410b1426f9247bb680e5fe0c8);
    assert_eq!(read("xyz"), 0);
    let path = upload_file_name("cat.png");
    let id_text = &path["../images/server/".len()..path.len() - ".png".len()];
    assert_eq!(stored(read(id_text)), id_text);
}

#[test]
fn decimal_text() {
    assert_eq!(i64_to_string(0), "0");
    assert_eq!(i64_to_string(-5), "-5");
    assert_eq!(i64_to_string(1700000600), "1700000600");
    assert_eq!(i64_to_string(i64::MIN), "-9223372036854775808");
    assert_eq!(i64_to_string(i64::MAX), "9223372036854775807");
}

#[test]
fn turn_credentials() {
    let (user, cred, realm) = turn_credentials_at("secret", "thiscord".to_string(), 1700000600);
    assert_eq!(user, "1700000600");
    assert_eq!(cred, "mKmuWLuhughjLdwFTs8cnQ9qiNA=");
    assert_eq!(realm, "thiscord");
    let (user, cred, _) = generate_turn_credentials("secret", "r".to_string(), 600).unwrap();
    assert!(user.parse::<i64>().unwrap() > 1_600_000_000);
    assert_eq!(cred.len(), 28);
    assert!(generate_turn_credentials("secret", "r".to_string(), i64::MAX).is_none());
    assert!(generate_turn_credentials("secret", "r".to_string(), -600).is_some());
}

#[test]
fn turn_credentials_from_a_clock_value() {
    let (user, cred, realm) = turn_credentials_for(1700000000, "secret", "thiscord".to_string(), 600).unwrap();
    assert_eq!(user, "1700000600");
    assert_eq!(cred, "mKmuWLuhughjLdwFTs8cnQ9qiNA=");
    assert_eq!(realm, "thiscord");
    assert_eq!(turn_credentials_for(100, "s", "r".to_string(), -200).unwrap().0, "-100");
    assert!(turn_credentials_for(i64::MAX, "s", "r".to_string(), 1).is_none());
    assert!(turn_credentials_for(i64::MIN, "s", "r".to_string(), -1).is_none());
    assert!(turn_credentials_for(i64::MAX, "s", "r".to_string(), 0).is_some());
}

#[test]
fn active_servers_track_users() {
    let mut active = UsersActiveServers::new();
    let (a, b) = (online(1), online(2));
    active.add_user_to_server(&a, &server(10));
    active.add_user_to_server(&b, &server(10));
    assert_eq!(active.get_server_for_user(&a).map(|s| s.id), Some(10));
    let users = active.get_users_for_server(&server(10));
    assert!(users.contains(&1) && users.contains(&2) && users.len() == 2);
    active.remove_user_from_server(&a);
    assert!(active.get_server_for_user(&a).is_none());
    assert_eq!(active.get_server_for_user(&b).map(|s| s.id), Some(10));
    assert!(active.get_users_for_server(&server(10)).is_empty());
    assert!(active.get_users_for_server(&server(11)).is_empty());
}

#[test]
fn online_user_audio_channel() {
    let mut u = online(1);
    assert_eq!(u.get_audio_channel(), None);
    u.set_audio_channel(5);
    assert_eq!(u.get_audio_channel(), Some(5));
    u.clear_audio_channel();
    assert_eq!(u.get_audio_channel(), None);
}

#[test]
fn stored_session_means_logged_in() {
    let row = SessionWString {
        id: 0,
        token: "tok".to_string(),
        user_id: "00000000-0000-0000-0000-000000000005".to_string(),
        username: "e".to_string(),
    };
    match thiscord::status::login_status_from_row(Some(row)) {
        LoginStatus::LoggedIn(s) => {
            assert_eq!(s.user_id, 5);
            assert_eq!(s.token, "tok");
        },
        LoginStatus::LoggedOut => panic!("logged in expected"),
    }
    assert!(thiscord::status::login_status_from_row(None).not());
}
