use auth_core::error::{AdapterError, Error};
use auth_core::model::{Role, UserSession};
use auth_core::repository::Repository;

fn s(t: &str) -> String {
    t.to_string()
}

fn missing(kind: &str) -> Error {
    Error::Adapter(AdapterError::DoesNotExist(kind.to_string()))
}

fn with_user() -> Repository {
    let mut r = Repository::new();
    let u = r.create_user(&s("u1"), &s("bibli@khan.com"), &s("bibli"), &s("hash")).unwrap();
    assert_eq!(u.id, "u1");
    assert_eq!(u.role, Role::User);
    assert!(!u.frozen);
    assert_eq!(u.email_verified_at, None);
    assert_eq!(u.otp_secret, None);
    assert_eq!(u.phone, None);
    r
}

#[test]
fn users_are_found_by_id_and_email() {
    let r = with_user();
    assert_eq!(r.get_user_by_id(&s("u1")).unwrap().email, "bibli@khan.com");
    assert_eq!(r.get_user_by_email(&s("bibli@khan.com")).unwrap().id, "u1");
    assert_eq!(r.get_user_by_id(&s("u2")), Err(missing("User")));
    assert_eq!(r.get_user_by_email(&s("Bibli@khan.com")), Err(missing("User")));
}

#[test]
fn id_and_email_are_unique() {
    let mut r = with_user();
    let taken = Err(Error::Adapter(AdapterError::Failure(s("User"))));
    assert_eq!(r.create_user(&s("u1"), &s("other@khan.com"), &s("x"), &s("h")), taken);
    assert_eq!(r.create_user(&s("u2"), &s("bibli@khan.com"), &s("x"), &s("h")), taken);
    assert_eq!(r.users().len(), 1);
    assert!(r.create_user(&s("u2"), &s("other@khan.com"), &s("x"), &s("h")).is_ok());
    assert_eq!(r.users().len(), 2);
}

#[test]
fn user_fields_are_changed_one_at_a_time() {
    let mut r = with_user();
    assert_eq!(r.update_user_password(&s("u1"), &s("new")).unwrap().password, "new");
    assert_eq!(r.update_email_verified_at(&s("u1"), 77).unwrap().email_verified_at, Some(77));
    assert_eq!(r.set_user_otp_secret(&s("u1"), &s("SECRET")).unwrap().otp_secret, Some(s("SECRET")));
    assert!(r.freeze_user(&s("u1")).unwrap().frozen);
    let u = r.get_user_by_id(&s("u1")).unwrap();
    assert_eq!(u.password, "new");
    assert_eq!(u.email_verified_at, Some(77));
    assert_eq!(u.otp_secret, Some(s("SECRET")));
    assert!(u.frozen);
    assert_eq!(u.email, "bibli@khan.com");
    assert_eq!(r.freeze_user(&s("nobody")), Err(missing("User")));
    assert_eq!(r.update_user_password(&s("nobody"), &s("x")), Err(missing("User")));
}

#[test]
fn session_lifetime_follows_permanence() {
    let mut r = with_user();
    let u = r.get_user_by_id(&s("u1")).unwrap();
    let a = r.create_session(&s("s1"), &u, &s("csrf"), false, 1000, 86400).unwrap();
    assert_eq!(a.expires_at, 87400);
    assert!(!a.permanent);
    assert_eq!(a.user_id, "u1");
    assert_eq!(a.csrf_token, "csrf");
    assert!(!a.otp_verified);
    let b = r.create_session(&s("s2"), &u, &s("csrf"), true, 1000, 86400).unwrap();
    assert_eq!(b.expires_at, u64::MAX);
    let c = r.create_session(&s("s3"), &u, &s("csrf"), false, u64::MAX - 5, 86400).unwrap();
    assert_eq!(c.expires_at, u64::MAX);
    assert_eq!(
        r.create_session(&s("s1"), &u, &s("csrf"), false, 1000, 86400),
        Err(Error::Adapter(AdapterError::Failure(s("Session"))))
    );
    assert_eq!(r.sessions(), vec![a, b, c]);
}

#[test]
fn ended_session_is_kept_and_no_longer_valid() {
    let mut r = with_user();
    let u = r.get_user_by_id(&s("u1")).unwrap();
    let a = r.create_session(&s("s1"), &u, &s("csrf"), false, 1000, 100).unwrap();
    assert_eq!(
        r.get_valid_user_session(&s("s1"), &s("csrf"), 1099),
        Ok(UserSession::new(&a, &u))
    );
    assert_eq!(r.get_valid_user_session(&s("s1"), &s("csrf"), 1100), Err(missing("Session")));
    assert_eq!(r.get_valid_user_session(&s("s1"), &s("other"), 1050), Err(missing("Session")));
    assert_eq!(r.get_valid_user_session(&s("s9"), &s("csrf"), 1050), Err(missing("Session")));
    let ended = r.expire_session(&s("s1"), 1050).unwrap();
    assert_eq!(ended.expires_at, 1050);
    assert_eq!(r.get_valid_user_session(&s("s1"), &s("csrf"), 1050), Err(missing("Session")));
    // Ending a session again does not revive it.
    assert_eq!(r.expire_session(&s("s1"), 2000).unwrap().expires_at, 1050);
    assert_eq!(r.expire_session(&s("s9"), 2000), Err(missing("Session")));
    assert_eq!(r.sessions().len(), 1);
}

#[test]
fn purge_returns_exactly_what_it_ended() {
    let mut r = with_user();
    r.create_user(&s("u2"), &s("other@khan.com"), &s("o"), &s("h")).unwrap();
    let u1 = r.get_user_by_id(&s("u1")).unwrap();
    let u2 = r.get_user_by_id(&s("u2")).unwrap();
    r.create_session(&s("a"), &u1, &s("c"), false, 0, 100).unwrap();
    r.create_session(&s("b"), &u1, &s("c"), true, 0, 100).unwrap();
    r.create_session(&s("c"), &u2, &s("c"), false, 0, 100).unwrap();
    r.create_session(&s("d"), &u1, &s("c"), false, 0, 10).unwrap();
    r.create_session(&s("e"), &u1, &s("c"), false, 0, 100).unwrap();
    let ended = r.purge_sessions(&s("u1"), &Some(s("e")), 50);
    let ids: Vec<&str> = ended.iter().map(|x| x.id.as_str()).collect();
    assert_eq!(ids, vec!["a", "b"]);
    assert!(ended.iter().all(|x| x.expires_at == 50));
    let all = r.sessions();
    let ends: Vec<u64> = all.iter().map(|x| x.expires_at).collect();
    assert_eq!(ends, vec![50, 50, 100, 10, 100]);
    assert!(r.purge_sessions(&s("u1"), &Some(s("e")), 60).is_empty());
    let ended = r.purge_sessions(&s("u1"), &None, 60);
    assert_eq!(ended.len(), 1);
    assert_eq!(ended[0].id, "e");
}
