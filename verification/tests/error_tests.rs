use auth_core::error::{
    AdapterError, AuthenticationError, Error, ErrorResponse, ValidationError,
};
use auth_core::model::CacheId;

fn shown(e: AuthenticationError) -> (u16, &'static str, &'static str) {
    let (m, d) = e.message_and_description();
    (e.status_code(), m, d)
}

#[test]
fn every_refusal_has_its_status_message_and_description() {
    assert_eq!(shown(AuthenticationError::Unauthenticated), (401, "UNAUTHORIZED", "No session"));
    assert_eq!(shown(AuthenticationError::InvalidCsrfHeader), (401, "UNAUTHORIZED", "Invalid CSRF header"));
    assert_eq!(shown(AuthenticationError::InvalidCredentials), (401, "UNAUTHORIZED", "Invalid credentials"));
    assert_eq!(shown(AuthenticationError::InvalidOTP), (401, "UNAUTHORIZED", "Invalid OTP provided"));
    assert_eq!(shown(AuthenticationError::AccountFrozen), (401, "SUSPENDED", "Account suspended"));
    assert_eq!(shown(AuthenticationError::EmailTaken), (409, "EMAIL_TAKEN", "Cannot use provided email"));
    assert_eq!(shown(AuthenticationError::EmailUnverified), (401, "UNVERIFIED", "Email not verified"));
    assert_eq!(shown(AuthenticationError::AuthBlocked), (401, "BLOCKED", "Authentication currently blocked"));
    assert_eq!(shown(AuthenticationError::AlreadyVerified), (409, "VERIFIED", "Account already verified"));
    assert_eq!(shown(AuthenticationError::InsufficientRights), (403, "FORBIDDEN", "Insufficient rights"));
    assert_eq!(shown(AuthenticationError::InvalidToken(CacheId::OTPToken)), (401, "INVALID_TOKEN", "Invalid OTP token"));
    assert_eq!(
        shown(AuthenticationError::InvalidToken(CacheId::RegToken)),
        (401, "INVALID_TOKEN", "Invalid registration token")
    );
    assert_eq!(
        shown(AuthenticationError::InvalidToken(CacheId::PWToken)),
        (401, "INVALID_TOKEN", "Invalid password change token")
    );
    for other in [
        CacheId::Session,
        CacheId::LoginAttempts,
        CacheId::OTPThrottle,
        CacheId::EmailThrottle,
    ] {
        assert_eq!(shown(AuthenticationError::InvalidToken(other)), (401, "INVALID_TOKEN", "Token not found"));
    }
}

#[test]
fn unknown_email_and_wrong_password_are_shown_alike() {
    let a = Error::new(AuthenticationError::InvalidCredentials).error_response();
    let b = Error::from(AuthenticationError::InvalidCredentials).error_response();
    assert_eq!(a, b);
    assert_eq!(a.code, 401);
}

#[test]
fn missing_record_is_not_found() {
    let e = Error::Adapter(AdapterError::DoesNotExist("User".to_string()));
    assert_eq!(e.status_code(), 404);
    assert_eq!(
        e.message_and_description(),
        ("NOT_FOUND", "Resource does not exist: User".to_string())
    );
    assert!(e.is_absent());
    assert_eq!(e.check_validation_errors(), None);
}

#[test]
fn infrastructure_detail_is_never_shown() {
    let hidden = vec![
        Error::ClientError("smtp refused: 554".to_string()),
        Error::Cache("key too long".to_string()),
        Error::Adapter(AdapterError::Failure("SELECT * FROM users".to_string())),
        Error::Redis("connection reset".to_string()),
        Error::Crypto("bad salt".to_string()),
        Error::Serde("expected value at line 1".to_string()),
        Error::HeaderValue("invalid".to_string()),
        Error::ToStr("not visible ascii".to_string()),
        Error::Http("bad gateway".to_string()),
        Error::Empty,
    ];
    for e in hidden {
        assert_eq!(e.status_code(), 500);
        assert_eq!(
            e.message_and_description(),
            ("INTERNAL_SERVER_ERROR", "Internal server error".to_string())
        );
        assert!(!e.is_absent());
        let r = e.error_response();
        assert_eq!(
            r,
            ErrorResponse {
                code: 500,
                message: "INTERNAL_SERVER_ERROR".to_string(),
                description: "Internal server error".to_string(),
                validation_errors: None,
            }
        );
        assert_eq!(e.duplicate(), e);
    }
}

#[test]
fn validation_failure_carries_its_violations() {
    let violations = vec![
        ValidationError {
            field: "email".to_string(),
            code: "email".to_string(),
            message: Some("not an email".to_string()),
        },
        ValidationError { field: "password".to_string(), code: "length".to_string(), message: None },
    ];
    let e = Error::Validation(violations.clone());
    assert_eq!(e.status_code(), 400);
    assert_eq!(e.message_and_description(), ("VALIDATION", "Invalid input".to_string()));
    assert_eq!(e.check_validation_errors(), Some(violations.clone()));
    let r = e.error_response();
    assert_eq!(r.code, 400);
    assert_eq!(r.message, "VALIDATION");
    assert_eq!(r.description, "Invalid input");
    assert_eq!(r.validation_errors, Some(violations));
}

#[test]
fn envelope_on_one_line() {
    let r = ErrorResponse::new(409, "EMAIL_TAKEN", "Cannot use provided email", None);
    assert_eq!(r.code, 409);
    assert_eq!(r.to_string(), "Message: EMAIL_TAKEN, Description: Cannot use provided email");
    let r = Error::Authentication(AuthenticationError::InvalidToken(CacheId::RegToken))
        .error_response();
    assert_eq!(r.to_string(), "Message: INVALID_TOKEN, Description: Invalid registration token");
}

#[test]
fn whatever_converts_is_kept_as_it_is() {
    let e = Error::new(AdapterError::DoesNotExist("User".to_string()));
    assert!(matches!(&e, Error::Adapter(AdapterError::DoesNotExist(m)) if m == "User"));
    let e = Error::new(AdapterError::Failure("down".to_string()));
    assert_eq!(e, Error::Adapter(AdapterError::Failure("down".to_string())));
    let e = Error::new(AuthenticationError::EmailTaken);
    assert!(matches!(e, Error::Authentication(AuthenticationError::EmailTaken)));
    let e = Error::new(AuthenticationError::InvalidToken(CacheId::PWToken));
    assert_eq!(e, Error::Authentication(AuthenticationError::InvalidToken(CacheId::PWToken)));
}
