use auth_core::cache::CacheValue;
use auth_core::error::{AuthenticationError, Error};
use auth_core::model::{CacheId, Role, Session, User, UserSession};
use auth_core::protocol::{Config, MailKind, Notice, Outcome};
use auth_core::service::account::{logout, purge_sessions, session_response, set_otp_secret, Logout};
use auth_core::service::guard::get_valid_session;
use auth_core::service::login::{login, verify_otp, Credentials, Otp};
use auth_core::service::password::{
    change_password, forgot_password, reset_password, verify_forgot_password, ChangePassword,
    ForgotPassword, ForgotPasswordVerify, ResetPassword,
};
use auth_core::service::registration::{
    resend_registration_token, start_registration, verify_registration_token, EmailToken,
    RegistrationData, ResendRegToken,
};
use auth_core::world::World;

const NOW: u64 = 1_700_000_000;

fn config() -> Config {
    Config {
        login_attempt_limit: 3,
        login_attempt_window: 600,
        otp_attempt_limit: 2,
        otp_attempt_window: 300,
        reg_token_ttl: 3600,
        otp_token_ttl: 300,
        pw_token_ttl: 3600,
        email_throttle: 60,
        session_ttl: 86400,
        otp_skew: true,
        hash_cost: 4,
        issuer: "Big Corp".to_string(),
    }
}

/// Eight blocks of twenty bytes, different for every seed.
fn blocks(seed: u8) -> Vec<Vec<u8>> {
    (0..8u8)
        .map(|i| {
            let mut b = vec![0u8; 20];
            b[0] = seed;
            b[1] = i;
            b[19] = seed ^ 0x5a;
            b
        })
        .collect()
}

fn text(block: &[u8]) -> String {
    data_encoding::BASE32.encode(block)
}

fn id(block: &[u8]) -> String {
    let mut bytes = [0u8; 16];
    bytes.copy_from_slice(&block[..16]);
    uuid::Builder::from_random_bytes(bytes).into_uuid().to_string()
}

fn refused(r: Result<Outcome, Error>) -> AuthenticationError {
    match r {
        Err(Error::Authentication(a)) => a,
        other => panic!("not refused: {:?}", other),
    }
}

fn register(world: &mut World, email: &str, password: &str, seed: u8) -> String {
    let data = RegistrationData {
        email: email.to_string(),
        password: password.to_string(),
        username: "bibli".to_string(),
    };
    let r = world.run(start_registration(data), NOW, &blocks(seed));
    assert_eq!(r, Ok(Outcome::Message { notice: Notice::RegistrationStarted }));
    world.outbox.last().unwrap().text.clone()
}

fn user_of(world: &World, email: &str) -> User {
    world.repository.get_user_by_email(&email.to_string()).unwrap()
}

fn log_in(world: &mut World, email: &str, password: &str, at: u64, seed: u8) -> Result<Outcome, Error> {
    let c = Credentials { email: email.to_string(), password: password.to_string(), remember: false };
    world.run(login(c), at, &blocks(seed))
}

fn opened(r: Result<Outcome, Error>) -> (Session, UserSession) {
    match r {
        Ok(Outcome::SessionEstablished { session, user_session }) => (session, user_session),
        other => panic!("no session: {:?}", other),
    }
}

fn guard(world: &mut World, s: &Session, csrf: &str, role: Role, at: u64) -> Result<Outcome, Error> {
    world.run(get_valid_session(Some(s.id.clone()), Some(csrf.to_string()), role), at, &vec![])
}

#[test]
fn registering_twice_with_one_email_fails_the_second_time() {
    let mut world = World::new(config());
    let token = register(&mut world, "bibli@khan.com", "123", 1);
    assert_eq!(token, id(&blocks(1)[2]));
    assert_eq!(world.outbox.len(), 1);
    assert_eq!(world.outbox[0].kind, MailKind::RegistrationToken);
    assert_eq!(world.outbox[0].email, "bibli@khan.com");
    assert_eq!(world.outbox[0].username, "bibli");
    let created = user_of(&world, "bibli@khan.com");
    assert_eq!(created.id, id(&blocks(1)[1]));
    assert_eq!(created.email_verified_at, None);
    assert!(!created.frozen);
    assert_eq!(created.otp_secret, None);
    assert_ne!(created.password, "123");
    assert_eq!(
        world.cache.get(CacheId::RegToken, &token, NOW + 3599),
        Some(CacheValue::Text(created.id.clone()))
    );
    assert_eq!(world.cache.get(CacheId::RegToken, &token, NOW + 3600), None);

    let again = RegistrationData {
        email: "bibli@khan.com".to_string(),
        password: "456".to_string(),
        username: "other".to_string(),
    };
    let r = world.run(start_registration(again), NOW, &blocks(2));
    assert_eq!(refused(r), AuthenticationError::EmailTaken);
    assert_eq!(world.repository.users().len(), 1);
    assert_eq!(world.outbox.len(), 1);
}

#[test]
fn registration_token_confirms_the_email_once() {
    let mut world = World::new(config());
    let token = register(&mut world, "bibli@khan.com", "123", 1);
    let r = world.run(verify_registration_token(EmailToken { token: token.clone() }), NOW + 5, &vec![]);
    assert_eq!(r, Ok(Outcome::Message { notice: Notice::EmailVerified }));
    assert_eq!(user_of(&world, "bibli@khan.com").email_verified_at, Some(NOW + 5));
    let r = world.run(verify_registration_token(EmailToken { token }), NOW + 6, &vec![]);
    assert_eq!(refused(r), AuthenticationError::InvalidToken(CacheId::RegToken));
}

#[test]
fn lapsed_registration_token_is_invalid() {
    let mut world = World::new(config());
    let token = register(&mut world, "bibli@khan.com", "123", 1);
    let r = world.run(verify_registration_token(EmailToken { token }), NOW + 3600, &vec![]);
    assert_eq!(refused(r), AuthenticationError::InvalidToken(CacheId::RegToken));
    assert_eq!(user_of(&world, "bibli@khan.com").email_verified_at, None);
}

#[test]
fn resending_is_throttled_and_refused_once_verified() {
    let mut world = World::new(config());
    let first = register(&mut world, "bibli@khan.com", "123", 1);
    let data = || ResendRegToken { email: "bibli@khan.com".to_string() };
    let r = world.run(resend_registration_token(data()), NOW + 1, &blocks(2));
    assert_eq!(r, Ok(Outcome::Message { notice: Notice::RegistrationTokenSent }));
    assert_eq!(world.outbox.len(), 2);
    let second = world.outbox[1].text.clone();
    assert_ne!(first, second);
    // Within the throttle nothing is sent, and the caller is told the same.
    let r = world.run(resend_registration_token(data()), NOW + 30, &blocks(3));
    assert_eq!(r, Ok(Outcome::Message { notice: Notice::RegistrationTokenSent }));
    assert_eq!(world.outbox.len(), 2);
    let r = world.run(resend_registration_token(data()), NOW + 61, &blocks(4));
    assert_eq!(r, Ok(Outcome::Message { notice: Notice::RegistrationTokenSent }));
    assert_eq!(world.outbox.len(), 3);

    let r = world.run(verify_registration_token(EmailToken { token: second }), NOW + 70, &vec![]);
    assert_eq!(r, Ok(Outcome::Message { notice: Notice::EmailVerified }));
    let r = world.run(resend_registration_token(data()), NOW + 200, &blocks(5));
    assert_eq!(refused(r), AuthenticationError::AlreadyVerified);
}

#[test]
fn login_without_otp_opens_exactly_one_session() {
    let mut world = World::new(config());
    register(&mut world, "bibli@khan.com", "123", 1);
    assert_eq!(refused(log_in(&mut world, "bibli@khan.com", "wrong", NOW, 2)), AuthenticationError::InvalidCredentials);
    let uid = user_of(&world, "bibli@khan.com").id;
    assert_eq!(world.cache.get(CacheId::LoginAttempts, &uid, NOW), Some(CacheValue::Number(1)));

    let (session, user_session) = opened(log_in(&mut world, "bibli@khan.com", "123", NOW + 1, 3));
    assert_eq!(world.repository.sessions(), vec![session.clone()]);
    assert_eq!(session.user_id, uid);
    assert_eq!(session.csrf_token, id(&blocks(3)[0]));
    assert_eq!(session.id, id(&blocks(3)[1]));
    assert!(!session.permanent);
    assert!(!session.otp_verified);
    assert_eq!(session.expires_at, NOW + 1 + 86400);
    assert_eq!(user_session.user_id, uid);
    assert_eq!(user_session.csrf, session.csrf_token);
    assert_eq!(world.cache.get(CacheId::LoginAttempts, &uid, NOW + 1), None);
    assert_eq!(
        world.cache.get(CacheId::Session, &session.id, NOW + 1),
        Some(CacheValue::Session(user_session))
    );
}

#[test]
fn unknown_email_and_wrong_password_look_alike() {
    let mut world = World::new(config());
    register(&mut world, "bibli@khan.com", "123", 1);
    let a = log_in(&mut world, "doesnt@exist.ever", "not good", NOW, 2);
    let b = log_in(&mut world, "bibli@khan.com", "not good", NOW, 3);
    assert_eq!(a, b);
    assert_eq!(refused(a), AuthenticationError::InvalidCredentials);
}

#[test]
fn three_wrong_passwords_block_the_fourth_login() {
    let mut world = World::new(config());
    register(&mut world, "bibli@khan.com", "123", 1);
    for i in 0..3u8 {
        let r = log_in(&mut world, "bibli@khan.com", "wrong", NOW + i as u64, 10 + i);
        assert_eq!(refused(r), AuthenticationError::InvalidCredentials);
    }
    let r = log_in(&mut world, "bibli@khan.com", "123", NOW + 10, 20);
    assert_eq!(refused(r), AuthenticationError::AuthBlocked);
    assert!(world.repository.sessions().is_empty());
    let r = log_in(&mut world, "bibli@khan.com", "123", NOW + 599, 21);
    assert_eq!(refused(r), AuthenticationError::AuthBlocked);
    // The window was opened by the first failure and has passed now.
    let r = log_in(&mut world, "bibli@khan.com", "123", NOW + 600, 22);
    opened(r);
}

fn with_otp(world: &mut World) -> (User, Vec<u8>) {
    register(world, "bibli@khan.com", "123", 1);
    let uid = user_of(world, "bibli@khan.com").id;
    let r = world.run(set_otp_secret(uid), NOW, &blocks(30));
    let secret = text(&blocks(30)[0]);
    match r {
        Ok(Outcome::OtpSecret { uri }) => {
            assert_eq!(
                uri,
                format!("otpauth://totp/bibli%40khan%2Ecom?secret={}&issuer=Big%20Corp", secret)
            );
        }
        other => panic!("no secret: {:?}", other),
    }
    let user = user_of(world, "bibli@khan.com");
    assert_eq!(user.otp_secret, Some(secret));
    (user, blocks(30)[0].clone())
}

#[test]
fn login_with_otp_hands_out_a_token_and_no_session() {
    let mut world = World::new(config());
    let (user, secret) = with_otp(&mut world);
    let r = log_in(&mut world, "bibli@khan.com", "123", NOW, 40);
    let token = match r {
        Ok(Outcome::OtpRequired { username, token, remember }) => {
            assert_eq!(username, "bibli");
            assert!(!remember);
            token
        }
        other => panic!("no token: {:?}", other),
    };
    assert!(world.repository.sessions().is_empty());
    assert_eq!(
        world.cache.get(CacheId::OTPToken, &token, NOW),
        Some(CacheValue::Text(user.id.clone()))
    );

    // A wrong code is refused and leaves the token.
    let wrong = Otp { password: "abcdef".to_string(), token: token.clone(), remember: true };
    let r = world.run(verify_otp(wrong), NOW + 1, &blocks(41));
    assert_eq!(refused(r), AuthenticationError::InvalidOTP);
    assert!(world.cache.get(CacheId::OTPToken, &token, NOW + 1).is_some());

    let code = thotp::otp(&secret, (NOW + 2) / 30).unwrap();
    let right = Otp { password: code.clone(), token: token.clone(), remember: true };
    let (session, user_session) = opened(world.run(verify_otp(right), NOW + 2, &blocks(42)));
    assert!(session.permanent);
    assert!(session.otp_verified);
    assert_eq!(session.expires_at, u64::MAX);
    assert_eq!(user_session.user_id, user.id);
    assert_eq!(world.repository.sessions().len(), 1);

    // The token is gone with the first success.
    let again = Otp { password: code, token, remember: true };
    let r = world.run(verify_otp(again), NOW + 3, &blocks(43));
    assert_eq!(refused(r), AuthenticationError::InvalidToken(CacheId::OTPToken));
    assert_eq!(world.repository.sessions().len(), 1);
}

#[test]
fn otp_of_the_step_before_passes_and_older_ones_do_not() {
    let mut world = World::new(config());
    let (_, secret) = with_otp(&mut world);
    let token = match log_in(&mut world, "bibli@khan.com", "123", NOW, 40) {
        Ok(Outcome::OtpRequired { token, .. }) => token,
        other => panic!("no token: {:?}", other),
    };
    let old = thotp::otp(&secret, NOW / 30 - 2).unwrap();
    let r = world.run(verify_otp(Otp { password: old, token: token.clone(), remember: false }), NOW, &blocks(41));
    assert_eq!(refused(r), AuthenticationError::InvalidOTP);
    let before = thotp::otp(&secret, NOW / 30 - 1).unwrap();
    let r = world.run(verify_otp(Otp { password: before, token, remember: false }), NOW, &blocks(42));
    opened(r);
}

#[test]
fn otp_attempts_are_throttled() {
    let mut world = World::new(config());
    let (user, secret) = with_otp(&mut world);
    let token = match log_in(&mut world, "bibli@khan.com", "123", NOW, 40) {
        Ok(Outcome::OtpRequired { token, .. }) => token,
        other => panic!("no token: {:?}", other),
    };
    for i in 0..2u8 {
        let wrong = Otp { password: "nope".to_string(), token: token.clone(), remember: false };
        let r = world.run(verify_otp(wrong), NOW + i as u64, &blocks(50 + i));
        assert_eq!(refused(r), AuthenticationError::InvalidOTP);
    }
    assert_eq!(world.cache.get(CacheId::OTPThrottle, &user.id, NOW + 2), Some(CacheValue::Number(2)));
    let code = thotp::otp(&secret, (NOW + 2) / 30).unwrap();
    let r = world.run(verify_otp(Otp { password: code, token, remember: false }), NOW + 2, &blocks(60));
    assert_eq!(refused(r), AuthenticationError::AuthBlocked);
}

#[test]
fn unknown_otp_token_fails_without_counting() {
    let mut world = World::new(config());
    let (user, _) = with_otp(&mut world);
    let data = Otp { password: "123456".to_string(), token: "expired".to_string(), remember: false };
    let r = world.run(verify_otp(data), NOW, &blocks(40));
    assert_eq!(refused(r), AuthenticationError::InvalidToken(CacheId::OTPToken));
    assert_eq!(world.cache.get(CacheId::OTPThrottle, &user.id, NOW), None);
    assert_eq!(world.cache.get(CacheId::LoginAttempts, &user.id, NOW), None);
}

#[test]
fn forgotten_password_is_replaced_and_every_old_session_ends() {
    let mut world = World::new(config());
    register(&mut world, "bibli@khan.com", "123", 1);
    let (old_a, _) = opened(log_in(&mut world, "bibli@khan.com", "123", NOW, 2));
    let (old_b, _) = opened(log_in(&mut world, "bibli@khan.com", "123", NOW, 3));
    let sent = world.outbox.len();
    let r = world.run(
        forgot_password(ForgotPassword { email: "bibli@khan.com".to_string() }),
        NOW + 10,
        &blocks(4),
    );
    assert_eq!(r, Ok(Outcome::Message { notice: Notice::ForgotPasswordSent }));
    assert_eq!(world.outbox.len(), sent + 1);
    assert_eq!(world.outbox[sent].kind, MailKind::ForgotPassword);
    let token = world.outbox[sent].text.clone();

    let data = ForgotPasswordVerify { password: "new password".to_string(), token: token.clone() };
    let (fresh, _) = opened(world.run(verify_forgot_password(data), NOW + 20, &blocks(5)));
    let sessions = world.repository.sessions();
    assert_eq!(sessions.len(), 3);
    let running: Vec<&Session> = sessions.iter().filter(|s| s.expires_at > NOW + 20).collect();
    assert_eq!(running, vec![&fresh]);
    for old in [&old_a, &old_b] {
        let r = guard(&mut world, old, &old.csrf_token, Role::User, NOW + 20);
        assert_eq!(refused(r), AuthenticationError::Unauthenticated);
        assert_eq!(world.cache.get(CacheId::Session, &old.id, NOW + 20), None);
    }
    assert!(guard(&mut world, &fresh, &fresh.csrf_token, Role::User, NOW + 20).is_ok());

    // The token is spent, the old password is void, the new one works.
    let data = ForgotPasswordVerify { password: "other".to_string(), token };
    let r = world.run(verify_forgot_password(data), NOW + 21, &blocks(6));
    assert_eq!(refused(r), AuthenticationError::InvalidToken(CacheId::PWToken));
    assert_eq!(refused(log_in(&mut world, "bibli@khan.com", "123", NOW + 30, 7)), AuthenticationError::InvalidCredentials);
    opened(log_in(&mut world, "bibli@khan.com", "new password", NOW + 31, 8));
}

#[test]
fn forgot_password_for_an_unknown_email_sends_nothing() {
    let mut world = World::new(config());
    let r = world.run(
        forgot_password(ForgotPassword { email: "doesnt@exist.ever".to_string() }),
        NOW,
        &blocks(1),
    );
    assert_eq!(refused(r), AuthenticationError::InvalidCredentials);
    assert!(world.outbox.is_empty());
}

#[test]
fn purge_spares_only_the_skipped_session() {
    let mut world = World::new(config());
    register(&mut world, "bibli@khan.com", "123", 1);
    register(&mut world, "other@khan.com", "456", 2);
    let (a, _) = opened(log_in(&mut world, "bibli@khan.com", "123", NOW, 3));
    let (b, _) = opened(log_in(&mut world, "bibli@khan.com", "123", NOW, 4));
    let (c, _) = opened(log_in(&mut world, "bibli@khan.com", "123", NOW, 5));
    let (o, _) = opened(log_in(&mut world, "other@khan.com", "456", NOW, 6));
    let r = world.run(purge_sessions(a.user_id.clone(), Some(b.id.clone())), NOW + 5, &vec![]);
    assert_eq!(r, Ok(Outcome::Message { notice: Notice::SessionsPurged }));
    for ended in [&a, &c] {
        assert!(world
            .repository
            .get_valid_user_session(&ended.id, &ended.csrf_token, NOW + 5)
            .is_err());
        assert_eq!(world.cache.get(CacheId::Session, &ended.id, NOW + 5), None);
        let r = guard(&mut world, ended, &ended.csrf_token, Role::User, NOW + 5);
        assert_eq!(refused(r), AuthenticationError::Unauthenticated);
    }
    for kept in [&b, &o] {
        assert!(world.repository.get_valid_user_session(&kept.id, &kept.csrf_token, NOW + 5).is_ok());
        assert!(world.cache.get(CacheId::Session, &kept.id, NOW + 5).is_some());
    }
    let after = world.repository.sessions();
    assert_eq!(after.len(), 4);
    assert_eq!(after[0].expires_at, NOW + 5);
    assert_eq!(after[1], b);
    assert_eq!(after[2].expires_at, NOW + 5);
    assert_eq!(after[3], o);
}

#[test]
fn opened_session_passes_the_guard() {
    let mut world = World::new(config());
    register(&mut world, "bibli@khan.com", "123", 1);
    let user = user_of(&world, "bibli@khan.com");
    let (session, user_session) =
        opened(world.run(session_response(user.clone(), false), NOW, &blocks(2)));
    let r = guard(&mut world, &session, &session.csrf_token, Role::User, NOW);
    assert_eq!(r, Ok(Outcome::Authorized { user_session: user_session.clone() }));
    assert_eq!(user_session.user_id, user.id);

    let r = guard(&mut world, &session, "forged", Role::User, NOW);
    assert_eq!(refused(r), AuthenticationError::InvalidCsrfHeader);
    let r = guard(&mut world, &session, &session.csrf_token, Role::Admin, NOW);
    assert_eq!(refused(r), AuthenticationError::InsufficientRights);
    let r = guard(&mut world, &session, &session.csrf_token, Role::User, NOW + 86400);
    assert_eq!(refused(r), AuthenticationError::Unauthenticated);
    let r = world.run(get_valid_session(None, Some("x".to_string()), Role::User), NOW, &vec![]);
    assert_eq!(refused(r), AuthenticationError::Unauthenticated);
    let r = world.run(get_valid_session(Some(session.id.clone()), None, Role::User), NOW, &vec![]);
    assert_eq!(refused(r), AuthenticationError::InvalidCsrfHeader);
}

#[test]
fn guard_fills_the_cache_from_the_repository() {
    let mut world = World::new(config());
    register(&mut world, "bibli@khan.com", "123", 1);
    let (session, user_session) = opened(log_in(&mut world, "bibli@khan.com", "123", NOW, 2));
    assert!(world.cache.delete(CacheId::Session, &session.id));
    let r = guard(&mut world, &session, &session.csrf_token, Role::User, NOW + 1);
    assert_eq!(r, Ok(Outcome::Authorized { user_session: user_session.clone() }));
    assert_eq!(
        world.cache.get(CacheId::Session, &session.id, NOW + 1),
        Some(CacheValue::Session(user_session))
    );
    // Off the cache the token is checked by the repository, which does not
    // say why it found nothing.
    assert!(world.cache.delete(CacheId::Session, &session.id));
    let r = guard(&mut world, &session, "forged", Role::User, NOW + 1);
    assert_eq!(refused(r), AuthenticationError::Unauthenticated);
    let r = world.run(
        get_valid_session(Some("unknown".to_string()), Some("x".to_string()), Role::User),
        NOW,
        &vec![],
    );
    assert_eq!(refused(r), AuthenticationError::Unauthenticated);
}

#[test]
fn frozen_account_is_refused_everywhere() {
    let mut world = World::new(config());
    register(&mut world, "bibli@khan.com", "123", 1);
    let (session, _) = opened(log_in(&mut world, "bibli@khan.com", "123", NOW, 2));
    let uid = session.user_id.clone();
    world.repository.freeze_user(&uid).unwrap();
    assert_eq!(refused(log_in(&mut world, "bibli@khan.com", "123", NOW, 3)), AuthenticationError::AccountFrozen);
    let r = world.run(forgot_password(ForgotPassword { email: "bibli@khan.com".to_string() }), NOW, &blocks(4));
    assert_eq!(refused(r), AuthenticationError::AccountFrozen);
    let r = world.run(resend_registration_token(ResendRegToken { email: "bibli@khan.com".to_string() }), NOW, &blocks(5));
    assert_eq!(refused(r), AuthenticationError::AccountFrozen);
    let r = world.run(set_otp_secret(uid), NOW, &blocks(6));
    assert_eq!(refused(r), AuthenticationError::AccountFrozen);
    // The cached projection is older than the freeze; off the cache the
    // guard sees it.
    world.cache.delete(CacheId::Session, &session.id);
    let r = guard(&mut world, &session, &session.csrf_token, Role::User, NOW);
    assert_eq!(refused(r), AuthenticationError::AccountFrozen);
}

#[test]
fn changing_the_password_ends_every_session_and_alerts() {
    let mut world = World::new(config());
    register(&mut world, "bibli@khan.com", "123", 1);
    let (a, current) = opened(log_in(&mut world, "bibli@khan.com", "123", NOW, 2));
    let (b, _) = opened(log_in(&mut world, "bibli@khan.com", "123", NOW, 3));
    let sent = world.outbox.len();
    let r = world.run(
        change_password(current, ChangePassword { password: "12345678".to_string() }),
        NOW + 1,
        &blocks(4),
    );
    assert_eq!(r, Ok(Outcome::Message { notice: Notice::PasswordChanged }));
    for ended in [&a, &b] {
        let r = guard(&mut world, ended, &ended.csrf_token, Role::User, NOW + 1);
        assert_eq!(refused(r), AuthenticationError::Unauthenticated);
    }
    assert_eq!(world.outbox.len(), sent + 1);
    assert_eq!(world.outbox[sent].kind, MailKind::PasswordChangeAlert);
    let token = world.outbox[sent].text.clone();
    assert_eq!(
        world.cache.get(CacheId::PWToken, &token, NOW + 1),
        Some(CacheValue::Text(a.user_id.clone()))
    );
    assert_eq!(refused(log_in(&mut world, "bibli@khan.com", "123", NOW + 2, 5)), AuthenticationError::InvalidCredentials);
    opened(log_in(&mut world, "bibli@khan.com", "12345678", NOW + 3, 6));

    // The token of the alert allows a reset, once.
    let r = world.run(reset_password(ResetPassword { token: token.clone() }), NOW + 4, &blocks(7));
    assert_eq!(r, Ok(Outcome::Message { notice: Notice::PasswordReset }));
    let mail = world.outbox.last().unwrap();
    assert_eq!(mail.kind, MailKind::ResetPassword);
    let temporary = mail.text.clone();
    assert_eq!(temporary, id(&blocks(7)[0]));
    assert!(world.repository.sessions().iter().all(|s| s.expires_at <= NOW + 4));
    let r = world.run(reset_password(ResetPassword { token }), NOW + 5, &blocks(8));
    assert_eq!(refused(r), AuthenticationError::InvalidToken(CacheId::PWToken));
    opened(log_in(&mut world, "bibli@khan.com", &temporary, NOW + 6, 9));
}

#[test]
fn logout_ends_the_session_and_on_request_the_others() {
    let mut world = World::new(config());
    register(&mut world, "bibli@khan.com", "123", 1);
    let (a, ua) = opened(log_in(&mut world, "bibli@khan.com", "123", NOW, 2));
    let (b, ub) = opened(log_in(&mut world, "bibli@khan.com", "123", NOW, 3));
    let (c, _) = opened(log_in(&mut world, "bibli@khan.com", "123", NOW, 4));
    let r = world.run(logout(ua, Logout { purge: false }), NOW + 1, &vec![]);
    assert_eq!(r, Ok(Outcome::Message { notice: Notice::LoggedOut }));
    assert_eq!(refused(guard(&mut world, &a, &a.csrf_token, Role::User, NOW + 1)), AuthenticationError::Unauthenticated);
    assert!(guard(&mut world, &b, &b.csrf_token, Role::User, NOW + 1).is_ok());
    let r = world.run(logout(ub, Logout { purge: true }), NOW + 2, &vec![]);
    assert_eq!(r, Ok(Outcome::Message { notice: Notice::LoggedOut }));
    for ended in [&b, &c] {
        let r = guard(&mut world, ended, &ended.csrf_token, Role::User, NOW + 2);
        assert_eq!(refused(r), AuthenticationError::Unauthenticated);
    }
}

#[test]
fn run_without_random_blocks_fails_where_one_is_needed() {
    let mut world = World::new(config());
    let data = RegistrationData {
        email: "bibli@khan.com".to_string(),
        password: "123".to_string(),
        username: "bibli".to_string(),
    };
    let r = world.run(start_registration(data), NOW, &vec![]);
    assert_eq!(r, Err(Error::Crypto("entropy".to_string())));
    assert!(world.repository.users().is_empty());
}

#[test]
fn hash_cost_out_of_range_fails_the_registration() {
    let mut cfg = config();
    cfg.hash_cost = 3;
    let mut world = World::new(cfg);
    let data = RegistrationData {
        email: "bibli@khan.com".to_string(),
        password: "123".to_string(),
        username: "bibli".to_string(),
    };
    let r = world.run(start_registration(data), NOW, &blocks(1));
    assert_eq!(r, Err(Error::Crypto("hash".to_string())));
}

#[test]
fn execute_draws_its_own_random_blocks() {
    let mut world = World::new(config());
    let data = RegistrationData {
        email: "bibli@khan.com".to_string(),
        password: "123".to_string(),
        username: "bibli".to_string(),
    };
    let r = world.execute(start_registration(data), NOW);
    assert_eq!(r, Ok(Outcome::Message { notice: Notice::RegistrationStarted }));
    let c = Credentials { email: "bibli@khan.com".to_string(), password: "123".to_string(), remember: true };
    let (first, _) = opened(world.execute(login(c), NOW));
    let c = Credentials { email: "bibli@khan.com".to_string(), password: "123".to_string(), remember: true };
    let (second, _) = opened(world.execute(login(c), NOW));
    assert_ne!(first.id, second.id);
    assert_ne!(first.csrf_token, second.csrf_token);
    assert_eq!(first.id.len(), 36);
    assert_eq!(uuid::Uuid::parse_str(&first.id).unwrap().get_version_num(), 4);
}

#[test]
fn otp_token_presented_as_a_cookie_passes_no_guard() {
    let mut world = World::new(config());
    let (user, _) = with_otp(&mut world);
    let token = match log_in(&mut world, "bibli@khan.com", "123", NOW, 40) {
        Ok(Outcome::OtpRequired { token, .. }) => token,
        other => panic!("no token: {:?}", other),
    };
    assert_ne!(token, user.id);
    let r = world.run(
        get_valid_session(Some(token.clone()), Some(token.clone()), Role::User),
        NOW,
        &vec![],
    );
    assert_eq!(refused(r), AuthenticationError::Unauthenticated);
    assert!(world.repository.sessions().is_empty());
    assert_eq!(world.cache.get(CacheId::Session, &token, NOW), None);
    assert_eq!(
        world.cache.get(CacheId::OTPToken, &token, NOW),
        Some(CacheValue::Text(user.id))
    );
}

#[test]
fn executed_operations_never_want_a_random_block() {
    let mut world = World::new(config());
    let data = RegistrationData {
        email: "mira@khan.com".to_string(),
        username: "mira".to_string(),
        password: "123".to_string(),
    };
    assert!(world.execute(start_registration(data), NOW).is_ok());
    let user = user_of(&world, "mira@khan.com");
    assert!(world.execute(set_otp_secret(user.id.clone()), NOW).is_ok());
    let email = ForgotPassword { email: "mira@khan.com".to_string() };
    assert!(world.execute(forgot_password(email), NOW).is_ok());
    assert!(world.execute(session_response(user, true), NOW).is_ok());
}

#[test]
fn ids_and_tokens_are_uuids_and_secrets_are_base32() {
    let block: Vec<u8> = (1..=20u8).collect();
    assert_eq!(
        auth_core::world::fresh_id_of(&block),
        Ok("01020304-0506-4708-890a-0b0c0d0e0f10".to_string())
    );
    assert_eq!(
        auth_core::world::fresh_id_of(&vec![7u8; 15]),
        Err(Error::Crypto("entropy".to_string()))
    );
    assert_eq!(
        auth_core::world::text_of_block(&block),
        "AEBAGBAFAYDQQCIKBMGA2DQPCAIREEYU".to_string()
    );
}
