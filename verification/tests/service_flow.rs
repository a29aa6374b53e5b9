use auth_core::cache::CacheValue;
use auth_core::error::{AdapterError, AuthenticationError, Error};
use auth_core::model::{CacheId, Role, Session, User, UserSession};
use auth_core::protocol::{Config, MailKind, Notice, Outcome, Reply, Request, Step};
use auth_core::service::account::{logout, purge_sessions, session_response, set_otp_secret, Logout};
use auth_core::service::login::{login, verify_otp, Credentials, Otp};
use auth_core::service::password::{
    ChangePassword, ForgotPassword, ForgotPasswordVerify, ResetPassword,
};
use auth_core::service::registration::{
    resend_registration_token, start_registration, EmailToken, RegistrationData, ResendRegToken,
};
use auth_core::service::{advance, password, registration, State};

const NOW: u64 = 1_700_000_000;

fn config() -> Config {
    Config {
        login_attempt_limit: 3,
        login_attempt_window: 600,
        otp_attempt_limit: 5,
        otp_attempt_window: 300,
        reg_token_ttl: 3600,
        otp_token_ttl: 300,
        pw_token_ttl: 3600,
        email_throttle: 60,
        session_ttl: 86400,
        otp_skew: true,
        hash_cost: 4,
        issuer: "Auth".to_string(),
    }
}

fn credentials() -> Credentials {
    Credentials { email: "test@lo.com".to_string(), password: "123".to_string(), remember: false }
}

fn registration_data() -> RegistrationData {
    RegistrationData {
        email: "test@lo.com".to_string(),
        password: "123".to_string(),
        username: "bibli".to_string(),
    }
}

fn user(otp: bool, verified: bool, frozen: bool) -> User {
    User {
        id: "user-1".to_string(),
        email: "bibli@khan.com".to_string(),
        username: "bibli".to_string(),
        password: "$2y$04$hash".to_string(),
        otp_secret: if otp { Some("GEZDGNBVGY3TQOJQGEZDGNBVGY3TQOJQ".to_string()) } else { None },
        phone: None,
        role: Role::User,
        frozen,
        email_verified_at: if verified { Some(1) } else { None },
    }
}

fn session(of: &User, permanent: bool) -> Session {
    Session {
        id: "session-1".to_string(),
        user_id: of.id.clone(),
        csrf_token: "csrf-1".to_string(),
        permanent,
        otp_verified: of.otp_secret.is_some(),
        expires_at: if permanent { u64::MAX } else { NOW + 86400 },
    }
}

fn user_session() -> UserSession {
    UserSession::new(&session(&user(false, true, false), false), &user(false, true, false))
}

fn missing_user() -> Error {
    Error::Adapter(AdapterError::DoesNotExist("User".to_string()))
}

/// Hands the answers to the operation one by one and collects what it asks;
/// the operation must end exactly when the answers run out.
fn drive(start: (State, Step), answers: Vec<Reply>) -> (Vec<Request>, Result<Outcome, Error>) {
    let cfg = config();
    let (mut state, mut step) = start;
    let mut asked = Vec::new();
    let mut answers = answers.into_iter();
    loop {
        match step {
            Step::Done(r) => {
                assert!(answers.next().is_none(), "answers left over");
                return (asked, r);
            }
            Step::Ask(request) => {
                asked.push(request);
                let reply = answers.next().expect("the operation asks more than was answered");
                let next = advance(&cfg, NOW, state, reply);
                state = next.0;
                step = next.1;
            }
        }
    }
}

fn established(of: &User, permanent: bool) -> Vec<Reply> {
    vec![
        Reply::Text(Ok("csrf-1".to_string())),
        Reply::Session(Ok(session(of, permanent))),
        Reply::Unit(Ok(())),
        Reply::Unit(Ok(())),
    ]
}

#[test]
fn registration() {
    let created = user(false, false, false);
    let (asked, r) = drive(
        start_registration(registration_data()),
        vec![
            Reply::User(Err(missing_user())),
            Reply::Text(Ok("$2y$04$hash".to_string())),
            Reply::User(Ok(created.clone())),
            Reply::Text(Ok("reg-token".to_string())),
            Reply::Unit(Ok(())),
            Reply::Unit(Ok(())),
        ],
    );
    assert_eq!(r, Ok(Outcome::Message { notice: Notice::RegistrationStarted }));
    assert_eq!(
        asked,
        vec![
            Request::GetUserByEmail { email: "test@lo.com".to_string() },
            Request::HashPassword { password: "123".to_string() },
            Request::CreateUser {
                email: "test@lo.com".to_string(),
                username: "bibli".to_string(),
                password: "$2y$04$hash".to_string(),
            },
            Request::FreshToken,
            Request::SetToken {
                cache_id: CacheId::RegToken,
                key: "reg-token".to_string(),
                value: CacheValue::Text("user-1".to_string()),
                ttl: Some(3600),
            },
            Request::SendMail {
                kind: MailKind::RegistrationToken,
                username: "bibli".to_string(),
                email: "bibli@khan.com".to_string(),
                text: "reg-token".to_string(),
            },
        ]
    );

    let (asked, res) = drive(
        start_registration(registration_data()),
        vec![Reply::User(Ok(user(false, true, false)))],
    );
    assert_eq!(asked.len(), 1);
    match res {
        Ok(_) => panic!("Not good"),
        Err(e) => assert!(matches!(e, Error::Authentication(AuthenticationError::EmailTaken))),
    }
}

#[test]
fn verify_registration_token() {
    let data = EmailToken { token: "reg-token".to_string() };
    let (asked, r) = drive(
        registration::verify_registration_token(data),
        vec![
            Reply::Value(Ok(Some(CacheValue::Text("user-1".to_string())))),
            Reply::User(Ok(user(false, false, false))),
            Reply::Value(Ok(Some(CacheValue::Text("user-1".to_string())))),
            Reply::User(Ok(user(false, true, false))),
        ],
    );
    assert_eq!(r, Ok(Outcome::Message { notice: Notice::EmailVerified }));
    assert_eq!(
        asked,
        vec![
            Request::GetToken { cache_id: CacheId::RegToken, key: "reg-token".to_string() },
            Request::GetUserById { id: "user-1".to_string() },
            Request::TakeToken { cache_id: CacheId::RegToken, key: "reg-token".to_string() },
            Request::UpdateEmailVerifiedAt { id: "user-1".to_string() },
        ]
    );

    let data = EmailToken { token: "12345".to_string() };
    let (asked, res) = drive(registration::verify_registration_token(data), vec![Reply::Value(Ok(None))]);
    assert_eq!(asked.len(), 1);
    match res {
        Ok(_) => panic!("Not good"),
        Err(e) => assert!(matches!(
            e,
            Error::Authentication(AuthenticationError::InvalidToken(CacheId::RegToken))
        )),
    };
}

#[test]
fn resend_reg_token() {
    let unverified = user(false, false, false);
    let data = ResendRegToken { email: unverified.email.clone() };
    let (asked, r) = drive(
        resend_registration_token(data),
        vec![
            Reply::User(Ok(unverified.clone())),
            Reply::Value(Ok(None)),
            Reply::Text(Ok("reg-token".to_string())),
            Reply::Unit(Ok(())),
            Reply::Unit(Ok(())),
            Reply::Unit(Ok(())),
        ],
    );
    assert_eq!(r, Ok(Outcome::Message { notice: Notice::RegistrationTokenSent }));
    assert_eq!(
        asked,
        vec![
            Request::GetUserByEmail { email: "bibli@khan.com".to_string() },
            Request::GetToken { cache_id: CacheId::EmailThrottle, key: "user-1".to_string() },
            Request::FreshToken,
            Request::SetToken {
                cache_id: CacheId::RegToken,
                key: "reg-token".to_string(),
                value: CacheValue::Text("user-1".to_string()),
                ttl: Some(3600),
            },
            Request::SendMail {
                kind: MailKind::RegistrationToken,
                username: "bibli".to_string(),
                email: "bibli@khan.com".to_string(),
                text: "reg-token".to_string(),
            },
            Request::SetToken {
                cache_id: CacheId::EmailThrottle,
                key: "user-1".to_string(),
                value: CacheValue::Number(NOW),
                ttl: Some(60),
            },
        ]
    );

    let data = ResendRegToken { email: unverified.email.clone() };
    let (_, res) =
        drive(resend_registration_token(data), vec![Reply::User(Ok(user(false, true, false)))]);
    match res {
        Ok(_) => panic!("Not good"),
        Err(e) => assert!(matches!(e, Error::Authentication(AuthenticationError::AlreadyVerified))),
    }
}

#[test]
fn resend_within_the_throttle_sends_nothing() {
    let unverified = user(false, false, false);
    let data = ResendRegToken { email: unverified.email.clone() };
    let (asked, r) = drive(
        resend_registration_token(data),
        vec![Reply::User(Ok(unverified)), Reply::Value(Ok(Some(CacheValue::Number(NOW - 5))))],
    );
    assert_eq!(r, Ok(Outcome::Message { notice: Notice::RegistrationTokenSent }));
    assert_eq!(asked.len(), 2);
}

#[test]
fn credentials_no_otp() {
    let found = user(false, true, false);
    let mut answers = vec![
        Reply::User(Ok(found.clone())),
        Reply::Value(Ok(None)),
        Reply::Verdict(Ok(true)),
    ];
    answers.extend(established(&found, false));
    let (asked, r) = drive(login(credentials()), answers);
    assert_eq!(
        r,
        Ok(Outcome::SessionEstablished {
            session: session(&found, false),
            user_session: UserSession::new(&session(&found, false), &found),
        })
    );
    assert_eq!(
        asked,
        vec![
            Request::GetUserByEmail { email: "test@lo.com".to_string() },
            Request::GetToken { cache_id: CacheId::LoginAttempts, key: "user-1".to_string() },
            Request::VerifyPassword {
                password: "123".to_string(),
                hash: "$2y$04$hash".to_string(),
            },
            Request::FreshToken,
            Request::CreateSession {
                user: found.clone(),
                csrf_token: "csrf-1".to_string(),
                permanent: false,
            },
            Request::SetSession { session: UserSession::new(&session(&found, false), &found) },
            Request::DeleteLoginAttempts { user_id: "user-1".to_string() },
        ]
    );
}

#[test]
fn credentials_and_otp() {
    let found = user(true, true, false);
    let (asked, r) = drive(
        login(credentials()),
        vec![
            Reply::User(Ok(found.clone())),
            Reply::Value(Ok(None)),
            Reply::Verdict(Ok(true)),
            Reply::Text(Ok("otp-token".to_string())),
            Reply::Unit(Ok(())),
        ],
    );
    let token = match r {
        Ok(Outcome::OtpRequired { username, token, remember }) => {
            assert_eq!(username, "bibli");
            assert!(!remember);
            token
        }
        other => panic!("no token: {:?}", other),
    };
    assert_eq!(token, "otp-token");
    assert_eq!(
        asked[4],
        Request::SetToken {
            cache_id: CacheId::OTPToken,
            key: "otp-token".to_string(),
            value: CacheValue::Text("user-1".to_string()),
            ttl: Some(300),
        }
    );
    assert!(!asked.iter().any(|q| matches!(q, Request::CreateSession { .. })));

    let data = Otp { password: "123456".to_string(), token, remember: true };
    let mut answers = vec![
        Reply::Value(Ok(Some(CacheValue::Text("user-1".to_string())))),
        Reply::Count(Ok(1)),
        Reply::User(Ok(found.clone())),
        Reply::Text(Ok("123456".to_string())),
        Reply::Value(Ok(Some(CacheValue::Text("user-1".to_string())))),
    ];
    answers.extend(established(&found, true));
    let (asked, r) = drive(verify_otp(data), answers);
    assert_eq!(
        r,
        Ok(Outcome::SessionEstablished {
            session: session(&found, true),
            user_session: UserSession::new(&session(&found, true), &found),
        })
    );
    assert_eq!(
        asked,
        vec![
            Request::GetToken { cache_id: CacheId::OTPToken, key: "otp-token".to_string() },
            Request::CacheOtpThrottle { user_id: "user-1".to_string() },
            Request::GetUserById { id: "user-1".to_string() },
            Request::OneTimePassword {
                secret: "GEZDGNBVGY3TQOJQGEZDGNBVGY3TQOJQ".to_string(),
                step: NOW / 30,
            },
            Request::TakeToken { cache_id: CacheId::OTPToken, key: "otp-token".to_string() },
            Request::FreshToken,
            Request::CreateSession {
                user: found.clone(),
                csrf_token: "csrf-1".to_string(),
                permanent: true,
            },
            Request::SetSession { session: UserSession::new(&session(&found, true), &found) },
            Request::DeleteLoginAttempts { user_id: "user-1".to_string() },
        ]
    );
}

#[test]
fn otp_of_the_step_before_is_accepted_with_skew() {
    let found = user(true, true, false);
    let data = Otp { password: "654321".to_string(), token: "t".to_string(), remember: false };
    let mut answers = vec![
        Reply::Value(Ok(Some(CacheValue::Text("user-1".to_string())))),
        Reply::Count(Ok(1)),
        Reply::User(Ok(found.clone())),
        Reply::Text(Ok("123456".to_string())),
        Reply::Text(Ok("654321".to_string())),
        Reply::Value(Ok(Some(CacheValue::Text("user-1".to_string())))),
    ];
    answers.extend(established(&found, false));
    let (asked, r) = drive(verify_otp(data), answers);
    assert!(matches!(r, Ok(Outcome::SessionEstablished { .. })));
    assert_eq!(
        asked[4],
        Request::OneTimePassword {
            secret: "GEZDGNBVGY3TQOJQGEZDGNBVGY3TQOJQ".to_string(),
            step: NOW / 30 - 1,
        }
    );
}

#[test]
fn wrong_otp_is_refused_and_keeps_the_token() {
    let found = user(true, true, false);
    let data = Otp { password: "000000".to_string(), token: "t".to_string(), remember: false };
    let (asked, r) = drive(
        verify_otp(data),
        vec![
            Reply::Value(Ok(Some(CacheValue::Text("user-1".to_string())))),
            Reply::Count(Ok(2)),
            Reply::User(Ok(found)),
            Reply::Text(Ok("123456".to_string())),
            Reply::Text(Ok("654321".to_string())),
        ],
    );
    assert_eq!(r, Err(Error::Authentication(AuthenticationError::InvalidOTP)));
    assert!(!asked.iter().any(|q| matches!(q, Request::TakeToken { .. })));
}

#[test]
fn otp_token_that_another_took_first_is_invalid() {
    let found = user(true, true, false);
    let data = Otp { password: "123456".to_string(), token: "t".to_string(), remember: false };
    let (asked, r) = drive(
        verify_otp(data),
        vec![
            Reply::Value(Ok(Some(CacheValue::Text("user-1".to_string())))),
            Reply::Count(Ok(1)),
            Reply::User(Ok(found)),
            Reply::Text(Ok("123456".to_string())),
            Reply::Value(Ok(None)),
        ],
    );
    assert_eq!(
        r,
        Err(Error::Authentication(AuthenticationError::InvalidToken(CacheId::OTPToken)))
    );
    assert!(!asked.iter().any(|q| matches!(q, Request::CreateSession { .. })));
}

#[test]
fn otp_attempts_over_the_limit_are_blocked() {
    let data = Otp { password: "123456".to_string(), token: "t".to_string(), remember: false };
    let (asked, r) = drive(
        verify_otp(data),
        vec![Reply::Value(Ok(Some(CacheValue::Text("user-1".to_string())))), Reply::Count(Ok(6))],
    );
    assert_eq!(r, Err(Error::Authentication(AuthenticationError::AuthBlocked)));
    assert_eq!(asked.len(), 2);
}

#[test]
fn unknown_otp_token_counts_nothing() {
    let data = Otp { password: "123456".to_string(), token: "gone".to_string(), remember: false };
    let (asked, r) = drive(verify_otp(data), vec![Reply::Value(Ok(None))]);
    assert_eq!(
        r,
        Err(Error::Authentication(AuthenticationError::InvalidToken(CacheId::OTPToken)))
    );
    assert_eq!(
        asked,
        vec![Request::GetToken { cache_id: CacheId::OTPToken, key: "gone".to_string() }]
    );
}

#[test]
fn invalid_credentails() {
    let invalid_email = Credentials {
        email: "doesnt@exist.ever".to_string(),
        password: "not good".to_string(),
        remember: false,
    };
    let (_, res) = drive(login(invalid_email), vec![Reply::User(Err(missing_user()))]);
    match res {
        Ok(_) => panic!("Not good"),
        Err(e) => {
            assert!(matches!(e, Error::Authentication(AuthenticationError::InvalidCredentials)))
        }
    }

    let found = user(false, true, false);
    let invalid_password = Credentials {
        email: found.email.clone(),
        password: "not good".to_string(),
        remember: false,
    };
    let (asked, res) = drive(
        login(invalid_password),
        vec![
            Reply::User(Ok(found)),
            Reply::Value(Ok(None)),
            Reply::Verdict(Ok(false)),
            Reply::Count(Ok(1)),
        ],
    );
    assert_eq!(asked[3], Request::CacheLoginAttempt { user_id: "user-1".to_string() });
    match res {
        Ok(_) => panic!("Not good"),
        Err(e) => {
            assert!(matches!(e, Error::Authentication(AuthenticationError::InvalidCredentials)))
        }
    }
}

#[test]
fn login_at_the_limit_is_blocked_before_the_password() {
    let (asked, r) = drive(
        login(credentials()),
        vec![Reply::User(Ok(user(false, true, false))), Reply::Value(Ok(Some(CacheValue::Number(3))))],
    );
    assert_eq!(r, Err(Error::Authentication(AuthenticationError::AuthBlocked)));
    assert_eq!(asked.len(), 2);
    let (_, r) = drive(
        login(credentials()),
        vec![
            Reply::User(Ok(user(false, true, false))),
            Reply::Value(Ok(Some(CacheValue::Number(2)))),
            Reply::Verdict(Ok(false)),
            Reply::Count(Ok(3)),
        ],
    );
    assert_eq!(r, Err(Error::Authentication(AuthenticationError::InvalidCredentials)));
}

#[test]
fn frozen_account_cannot_log_in() {
    let (asked, r) = drive(login(credentials()), vec![Reply::User(Ok(user(false, true, true)))]);
    assert_eq!(r, Err(Error::Authentication(AuthenticationError::AccountFrozen)));
    assert_eq!(asked.len(), 1);
}

#[test]
fn store_failure_passes_through_a_login() {
    let (_, r) = drive(
        login(credentials()),
        vec![Reply::User(Err(Error::Adapter(AdapterError::Failure("down".to_string()))))],
    );
    assert_eq!(r, Err(Error::Adapter(AdapterError::Failure("down".to_string()))));
    let (_, r) = drive(
        login(credentials()),
        vec![
            Reply::User(Ok(user(false, true, false))),
            Reply::Value(Err(Error::Redis("timeout".to_string()))),
        ],
    );
    assert_eq!(r, Err(Error::Redis("timeout".to_string())));
}

#[test]
fn answer_that_was_not_asked_for_ends_the_operation() {
    let (_, r) = drive(login(credentials()), vec![Reply::Count(Ok(1))]);
    assert_eq!(r, Err(Error::Empty));
    let next = advance(&config(), NOW, State::Finished, Reply::Unit(Ok(())));
    assert_eq!(next.1, Step::Done(Err(Error::Empty)));
}

#[test]
fn change_password() {
    let changed = user(false, true, false);
    let data = ChangePassword { password: "12345678".to_string() };
    let (asked, r) = drive(
        password::change_password(user_session(), data),
        vec![
            Reply::Text(Ok("$2y$04$new".to_string())),
            Reply::User(Ok(changed.clone())),
            Reply::Sessions(Ok(vec![session(&changed, false)])),
            Reply::Unit(Ok(())),
            Reply::Text(Ok("pw-token".to_string())),
            Reply::Unit(Ok(())),
            Reply::Unit(Ok(())),
        ],
    );
    assert_eq!(r, Ok(Outcome::Message { notice: Notice::PasswordChanged }));
    assert_eq!(
        asked,
        vec![
            Request::HashPassword { password: "12345678".to_string() },
            Request::UpdateUserPassword {
                id: "user-1".to_string(),
                password: "$2y$04$new".to_string(),
            },
            Request::PurgeSessions { user_id: "user-1".to_string(), skip: None },
            Request::DropSessions { ids: vec!["session-1".to_string()] },
            Request::FreshToken,
            Request::SetToken {
                cache_id: CacheId::PWToken,
                key: "pw-token".to_string(),
                value: CacheValue::Text("user-1".to_string()),
                ttl: Some(3600),
            },
            Request::SendMail {
                kind: MailKind::PasswordChangeAlert,
                username: "bibli".to_string(),
                email: "bibli@khan.com".to_string(),
                text: "pw-token".to_string(),
            },
        ]
    );
}

#[test]
fn change_password_stands_when_the_alert_is_not_delivered() {
    let changed = user(false, true, false);
    let data = ChangePassword { password: "12345678".to_string() };
    let (_, r) = drive(
        password::change_password(user_session(), data),
        vec![
            Reply::Text(Ok("$2y$04$new".to_string())),
            Reply::User(Ok(changed)),
            Reply::Sessions(Ok(vec![])),
            Reply::Unit(Err(Error::Redis("down".to_string()))),
            Reply::Text(Ok("pw-token".to_string())),
            Reply::Unit(Ok(())),
            Reply::Unit(Err(Error::ClientError("smtp".to_string()))),
        ],
    );
    assert_eq!(r, Ok(Outcome::Message { notice: Notice::PasswordChanged }));
}

#[test]
fn frozen_session_cannot_change_the_password() {
    let mut frozen = user_session();
    frozen.frozen = true;
    let start = password::change_password(frozen, ChangePassword { password: "x".to_string() });
    assert_eq!(start.1, Step::Done(Err(Error::Authentication(AuthenticationError::AccountFrozen))));
}

#[test]
fn reset_password() {
    let found = user(false, true, false);
    let data = ResetPassword { token: "12345".to_string() };
    let (asked, r) = drive(
        password::reset_password(data),
        vec![
            Reply::Value(Ok(Some(CacheValue::Text("user-1".to_string())))),
            Reply::User(Ok(found.clone())),
            Reply::Value(Ok(Some(CacheValue::Text("user-1".to_string())))),
            Reply::Text(Ok("temporary".to_string())),
            Reply::Text(Ok("$2y$04$temp".to_string())),
            Reply::User(Ok(found.clone())),
            Reply::Unit(Ok(())),
            Reply::Sessions(Ok(vec![session(&found, false)])),
            Reply::Unit(Ok(())),
        ],
    );
    assert_eq!(r, Ok(Outcome::Message { notice: Notice::PasswordReset }));
    assert_eq!(
        asked,
        vec![
            Request::GetToken { cache_id: CacheId::PWToken, key: "12345".to_string() },
            Request::GetUserById { id: "user-1".to_string() },
            Request::TakeToken { cache_id: CacheId::PWToken, key: "12345".to_string() },
            Request::FreshToken,
            Request::HashPassword { password: "temporary".to_string() },
            Request::UpdateUserPassword {
                id: "user-1".to_string(),
                password: "$2y$04$temp".to_string(),
            },
            Request::SendMail {
                kind: MailKind::ResetPassword,
                username: "bibli".to_string(),
                email: "bibli@khan.com".to_string(),
                text: "temporary".to_string(),
            },
            Request::PurgeSessions { user_id: "user-1".to_string(), skip: None },
            Request::DropSessions { ids: vec!["session-1".to_string()] },
        ]
    );

    let data = ResetPassword { token: "12345".to_string() };
    let (_, res) = drive(password::reset_password(data), vec![Reply::Value(Ok(None))]);
    match res {
        Ok(_) => panic!("Not good"),
        Err(e) => assert!(matches!(
            e,
            Error::Authentication(AuthenticationError::InvalidToken(CacheId::PWToken))
        )),
    };
}

#[test]
fn forgot_password() {
    let found = user(false, true, false);
    let data = ForgotPassword { email: found.email.clone() };
    let (asked, r) = drive(
        password::forgot_password(data),
        vec![
            Reply::User(Ok(found.clone())),
            Reply::Value(Ok(None)),
            Reply::Text(Ok("pw-token".to_string())),
            Reply::Unit(Ok(())),
            Reply::Unit(Ok(())),
            Reply::Unit(Ok(())),
        ],
    );
    assert_eq!(r, Ok(Outcome::Message { notice: Notice::ForgotPasswordSent }));
    assert_eq!(
        asked,
        vec![
            Request::GetUserByEmail { email: "bibli@khan.com".to_string() },
            Request::GetToken { cache_id: CacheId::EmailThrottle, key: "user-1".to_string() },
            Request::FreshToken,
            Request::SetToken {
                cache_id: CacheId::PWToken,
                key: "pw-token".to_string(),
                value: CacheValue::Text("user-1".to_string()),
                ttl: Some(3600),
            },
            Request::SendMail {
                kind: MailKind::ForgotPassword,
                username: "bibli".to_string(),
                email: "bibli@khan.com".to_string(),
                text: "pw-token".to_string(),
            },
            Request::SetToken {
                cache_id: CacheId::EmailThrottle,
                key: "user-1".to_string(),
                value: CacheValue::Number(NOW),
                ttl: Some(60),
            },
        ]
    );

    // An unknown email ends like a login with an unknown email.
    let data = ForgotPassword { email: found.email.clone() };
    match drive(password::forgot_password(data), vec![Reply::User(Err(missing_user()))]).1 {
        Ok(_) => panic!("Not good"),
        Err(e) => {
            assert!(matches!(e, Error::Authentication(AuthenticationError::InvalidCredentials)))
        }
    };
}

#[test]
fn forgot_password_fails_when_the_token_is_not_delivered() {
    let found = user(false, true, false);
    let data = ForgotPassword { email: found.email.clone() };
    let (_, r) = drive(
        password::forgot_password(data),
        vec![
            Reply::User(Ok(found)),
            Reply::Value(Ok(None)),
            Reply::Text(Ok("pw-token".to_string())),
            Reply::Unit(Ok(())),
            Reply::Unit(Err(Error::ClientError("smtp".to_string()))),
        ],
    );
    assert_eq!(r, Err(Error::ClientError("smtp".to_string())));
}

#[test]
fn verify_forgot_password() {
    let found = user(false, true, false);
    let data =
        ForgotPasswordVerify { password: "12345678".to_string(), token: "12345".to_string() };
    let mut answers = vec![
        Reply::Value(Ok(Some(CacheValue::Text("user-1".to_string())))),
        Reply::User(Ok(found.clone())),
        Reply::Value(Ok(Some(CacheValue::Text("user-1".to_string())))),
        Reply::Text(Ok("$2y$04$new".to_string())),
        Reply::User(Ok(found.clone())),
        Reply::Sessions(Ok(vec![])),
        Reply::Unit(Ok(())),
    ];
    answers.extend(established(&found, false));
    let (asked, r) = drive(password::verify_forgot_password(data), answers);
    assert!(matches!(r, Ok(Outcome::SessionEstablished { .. })));
    assert_eq!(
        asked,
        vec![
            Request::GetToken { cache_id: CacheId::PWToken, key: "12345".to_string() },
            Request::GetUserById { id: "user-1".to_string() },
            Request::TakeToken { cache_id: CacheId::PWToken, key: "12345".to_string() },
            Request::HashPassword { password: "12345678".to_string() },
            Request::UpdateUserPassword {
                id: "user-1".to_string(),
                password: "$2y$04$new".to_string(),
            },
            Request::PurgeSessions { user_id: "user-1".to_string(), skip: None },
            Request::DropSessions { ids: vec![] },
            Request::FreshToken,
            Request::CreateSession {
                user: found.clone(),
                csrf_token: "csrf-1".to_string(),
                permanent: false,
            },
            Request::SetSession { session: UserSession::new(&session(&found, false), &found) },
            Request::DeleteLoginAttempts { user_id: "user-1".to_string() },
        ]
    );

    let data =
        ForgotPasswordVerify { password: "12345678".to_string(), token: "12345".to_string() };
    let (_, res) = drive(password::verify_forgot_password(data), vec![Reply::Value(Ok(None))]);
    match res {
        Ok(_) => panic!("Not good"),
        Err(e) => assert!(matches!(
            e,
            Error::Authentication(AuthenticationError::InvalidToken(CacheId::PWToken))
        )),
    }
}

#[test]
fn logout_with_and_without_purge() {
    let ended = session(&user(false, true, false), false);
    let (asked, r) = drive(
        logout(user_session(), Logout { purge: false }),
        vec![Reply::Session(Ok(ended.clone())), Reply::Unit(Ok(()))],
    );
    assert_eq!(r, Ok(Outcome::Message { notice: Notice::LoggedOut }));
    assert_eq!(
        asked,
        vec![
            Request::ExpireSession { id: "session-1".to_string() },
            Request::DeleteToken { cache_id: CacheId::Session, key: "session-1".to_string() },
        ]
    );
    let (asked, r) = drive(
        logout(user_session(), Logout { purge: true }),
        vec![
            Reply::Session(Ok(ended)),
            Reply::Unit(Ok(())),
            Reply::Sessions(Ok(vec![])),
            Reply::Unit(Ok(())),
        ],
    );
    assert_eq!(r, Ok(Outcome::Message { notice: Notice::LoggedOut }));
    assert_eq!(asked[2], Request::PurgeSessions { user_id: "user-1".to_string(), skip: None });
}

#[test]
fn purge_drops_what_the_repository_ended() {
    let found = user(false, true, false);
    let mut other = session(&found, true);
    other.id = "session-2".to_string();
    let (asked, r) = drive(
        purge_sessions("user-1".to_string(), Some("session-9".to_string())),
        vec![Reply::Sessions(Ok(vec![session(&found, false), other])), Reply::Unit(Ok(()))],
    );
    assert_eq!(r, Ok(Outcome::Message { notice: Notice::SessionsPurged }));
    assert_eq!(
        asked,
        vec![
            Request::PurgeSessions {
                user_id: "user-1".to_string(),
                skip: Some("session-9".to_string()),
            },
            Request::DropSessions {
                ids: vec!["session-1".to_string(), "session-2".to_string()],
            },
        ]
    );
    let (_, r) = drive(
        purge_sessions("user-1".to_string(), None),
        vec![Reply::Sessions(Err(Error::Adapter(AdapterError::Failure("down".to_string()))))],
    );
    assert_eq!(r, Err(Error::Adapter(AdapterError::Failure("down".to_string()))));
}

#[test]
fn session_response_does_not_touch_the_attempts() {
    let found = user(false, true, false);
    let (asked, r) = drive(
        session_response(found.clone(), true),
        vec![
            Reply::Text(Ok("csrf-1".to_string())),
            Reply::Session(Ok(session(&found, true))),
            Reply::Unit(Ok(())),
        ],
    );
    assert!(matches!(r, Ok(Outcome::SessionEstablished { .. })));
    assert_eq!(asked.len(), 3);
    assert_eq!(
        asked[1],
        Request::CreateSession { user: found, csrf_token: "csrf-1".to_string(), permanent: true }
    );
}

#[test]
fn otp_secret_is_set_and_handed_out_as_uri() {
    let found = user(false, true, false);
    let (asked, r) = drive(
        set_otp_secret("user-1".to_string()),
        vec![
            Reply::User(Ok(found.clone())),
            Reply::Text(Ok("SECRET".to_string())),
            Reply::User(Ok(found)),
            Reply::Text(Ok("otpauth://totp/x".to_string())),
        ],
    );
    assert_eq!(r, Ok(Outcome::OtpSecret { uri: "otpauth://totp/x".to_string() }));
    assert_eq!(
        asked,
        vec![
            Request::GetUserById { id: "user-1".to_string() },
            Request::FreshSecret,
            Request::SetUserOtpSecret { id: "user-1".to_string(), secret: "SECRET".to_string() },
            Request::OtpUri {
                secret: "SECRET".to_string(),
                account: "bibli@khan.com".to_string(),
                issuer: "Auth".to_string(),
            },
        ]
    );
}

#[test]
fn frozen_account_is_refused_before_a_token_is_taken_or_anything_written() {
    let token = || Reply::Value(Ok(Some(CacheValue::Text("user-1".to_string()))));
    let frozen = || Reply::User(Ok(user(false, true, true)));
    let starts = vec![
        registration::verify_registration_token(EmailToken { token: "t".to_string() }),
        password::verify_forgot_password(ForgotPasswordVerify {
            password: "new".to_string(),
            token: "t".to_string(),
        }),
        password::reset_password(ResetPassword { token: "t".to_string() }),
    ];
    for start in starts {
        let (asked, r) = drive(start, vec![token(), frozen()]);
        assert_eq!(r, Err(Error::Authentication(AuthenticationError::AccountFrozen)));
        assert_eq!(asked.len(), 2);
        assert!(matches!(asked[0], Request::GetToken { .. }));
        assert_eq!(asked[1], Request::GetUserById { id: "user-1".to_string() });
    }
}

#[test]
fn token_that_another_took_first_changes_nothing() {
    let token = || Reply::Value(Ok(Some(CacheValue::Text("user-1".to_string()))));
    let found = || Reply::User(Ok(user(false, true, false)));
    let cases = vec![
        (
            registration::verify_registration_token(EmailToken { token: "t".to_string() }),
            CacheId::RegToken,
        ),
        (
            password::verify_forgot_password(ForgotPasswordVerify {
                password: "new".to_string(),
                token: "t".to_string(),
            }),
            CacheId::PWToken,
        ),
        (password::reset_password(ResetPassword { token: "t".to_string() }), CacheId::PWToken),
    ];
    for (start, kind) in cases {
        let (asked, r) = drive(start, vec![token(), found(), Reply::Value(Ok(None))]);
        assert_eq!(r, Err(Error::Authentication(AuthenticationError::InvalidToken(kind))));
        assert_eq!(asked.len(), 3);
        assert_eq!(asked[2], Request::TakeToken { cache_id: kind, key: "t".to_string() });
    }
}
