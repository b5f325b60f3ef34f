use thiscord::activation::{activation_code, activation_email_body, activation_email_subject, activation_outcome, new_activation_code};
use thiscord::auth::{authenticate, get_user, hash_new_password, UserRecord};
use thiscord::error::Error;
use thiscord::greet;

fn user(password: String, deleted: bool, activated: bool) -> UserRecord {
    UserRecord {
        id: 7,
        username: "alice".to_string(),
        email: "alice@example.com".to_string(),
        password,
        deleted,
        created_at: 0,
        activated,
    }
}

#[test]
fn greet_names_the_caller() {
    assert_eq!(greet("Bob"), "Hello, Bob! You've been greeted from Rust!");
    assert_eq!(greet(""), "Hello, ! You've been greeted from Rust!");
}

#[test]
fn hashed_password_logs_in() {
    let phc = hash_new_password("hunter2").unwrap();
    assert!(phc.starts_with("$argon2"));
    let found = authenticate(Some(user(phc.clone(), false, true)), "hunter2").unwrap();
    assert_eq!(found.map(|u| u.id), Some(7));
}

#[test]
fn wrong_password_is_refused() {
    let phc = hash_new_password("hunter2").unwrap();
    let found = authenticate(Some(user(phc, false, true)), "hunter3").unwrap();
    assert!(found.is_none());
}

#[test]
fn two_hashes_of_one_password_differ() {
    let a = hash_new_password("pw").unwrap();
    let b = hash_new_password("pw").unwrap();
    assert_ne!(a, b);
}

#[test]
fn deleted_or_inactive_accounts_cannot_log_in() {
    let phc = hash_new_password("pw").unwrap();
    assert!(authenticate(Some(user(phc.clone(), true, true)), "pw").unwrap().is_none());
    assert!(authenticate(Some(user(phc, false, false)), "pw").unwrap().is_none());
    assert!(authenticate(None, "pw").unwrap().is_none());
}

#[test]
fn unreadable_hash_is_an_error() {
    match authenticate(Some(user("not a hash".to_string(), false, true)), "pw") {
        Err(Error::PasswordHash(m)) => assert!(!m.is_empty()),
        other => panic!("unexpected {:?}", other.map(|u| u.map(|u| u.id))),
    }
    match authenticate(Some(user(String::new(), false, true)), "pw") {
        Err(Error::PasswordHash(_)) => {},
        _ => panic!("empty hash must be an error"),
    }
}

#[test]
fn deleted_user_is_hidden() {
    assert!(get_user(Some(user("x".to_string(), true, true))).is_none());
    assert_eq!(get_user(Some(user("x".to_string(), false, false))).map(|u| u.id), Some(7));
    assert!(get_user(None).is_none());
}

#[test]
fn activation_codes_have_six_digits() {
    assert_eq!(activation_code(7), "000007");
    assert_eq!(activation_code(0), "000000");
    assert_eq!(activation_code(999_999), "999999");
    assert_eq!(activation_code(1_234_567), "234567");
    assert_eq!(activation_code(u32::MAX), "967295");
    let fresh = new_activation_code();
    assert_eq!(fresh.len(), 6);
    assert!(fresh.chars().all(|c| c.is_ascii_digit()));
}

#[test]
fn activation_mail_text() {
    assert_eq!(activation_email_subject(), "Thiscord activation code");
    assert_eq!(
        activation_email_body("012345", Some("thiscord.com.tr".to_string())),
        "Your activation code is: 012345\n\nLink: https://thiscord.com.tr/auth/activate?token=012345"
    );
    assert_eq!(
        activation_email_body("1", None),
        "Your activation code is: 1\n\nLink: https://localhost/auth/activate?token=1"
    );
}

#[test]
fn activation_outcomes() {
    assert_eq!(activation_outcome(None, 10), Ok(None));
    assert_eq!(activation_outcome(Some((5, None)), 10), Err(Error::InvalidActivationCode));
    assert_eq!(activation_outcome(Some((5, Some(9))), 10), Ok(None));
    assert_eq!(activation_outcome(Some((5, Some(10))), 10), Ok(Some(5)));
    assert_eq!(activation_outcome(Some((5, Some(11))), 10), Ok(Some(5)));
}
