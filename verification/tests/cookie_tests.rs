use auth_core::http_cookie::{create_session, create_session_in_jar, sign_jar, SameSite, MAX_AGE, S_ID};

#[test]
fn session_cookie_default_lifetime() {
    let c = create_session("abc", false, false);
    assert_eq!(c.name, "S_ID");
    assert_eq!(c.value, "abc");
    assert_eq!(c.path, "/");
    assert_eq!(c.domain, "");
    assert_eq!(c.max_age, 86400);
    assert_eq!(c.max_age, MAX_AGE);
    assert_eq!(c.max_age_nanos, 0);
    let gone = create_session("abc", true, true);
    assert_eq!((gone.max_age, gone.max_age_nanos), (0, 0));
    let kept = create_session("abc", false, true);
    assert_eq!((kept.max_age, kept.max_age_nanos), (i64::MAX, 999_999_999));
    assert_eq!(c.same_site, SameSite::Lax);
    assert!(c.http_only);
    assert!(c.secure);
}

#[test]
fn session_cookie_in_jar_holds_the_id() {
    let jar = create_session_in_jar("abc", false, true);
    let c = jar.get(S_ID).unwrap();
    assert_eq!(c.value(), "abc");
    assert_eq!(c.name(), "S_ID");
    assert_eq!(c.max_age(), Some(cookie::time::Duration::MAX));
    assert_eq!(c.same_site(), Some(cookie::SameSite::Lax));
    assert_eq!(c.domain(), Some(""));
    assert_eq!(jar.iter().count(), 1);
    assert_eq!(jar.delta().count(), 0);
    let day = create_session_in_jar("abc", false, false);
    assert_eq!(day.get(S_ID).unwrap().max_age(), Some(cookie::time::Duration::days(1)));
    let gone = create_session_in_jar("abc", true, true);
    assert_eq!(gone.get(S_ID).unwrap().max_age(), Some(cookie::time::Duration::ZERO));
    assert_eq!(c.path(), Some("/"));
    assert_eq!(c.http_only(), Some(true));
    assert_eq!(c.secure(), Some(true));
    let key = "k".repeat(64);
    let signed = sign_jar(&jar, &key);
    assert!(signed.get(S_ID).is_none());
}

#[test]
fn signed_jar_stands_before_the_jar_and_signs_with_the_first_half_of_the_secret() {
    let secret = "a".repeat(32) + &"b".repeat(32);
    let mut jar = cookie::CookieJar::new();
    jar.signed_mut(&cookie::Key::from(secret.as_bytes()))
        .add_original(cookie::Cookie::new("S_ID", "abc"));
    let stored = jar.get(S_ID).unwrap().value().to_string();
    assert_ne!(stored, "abc");
    assert!(stored.ends_with("abc"));

    // What was signed with the secret comes out of the signed jar.
    assert_eq!(sign_jar(&jar, &secret).get(S_ID).unwrap().value(), "abc");
    // Only the first 32 bytes sign: what follows them may differ.
    let same_half = "a".repeat(32) + &"c".repeat(40);
    assert_eq!(sign_jar(&jar, &same_half).get(S_ID).unwrap().value(), "abc");
    // A secret that differs within them verifies nothing.
    let other = "x".to_string() + &"a".repeat(31) + &"b".repeat(32);
    assert!(sign_jar(&jar, &other).get(S_ID).is_none());
    // The signed jar shows this jar's cookies and no others.
    assert!(sign_jar(&jar, &secret).get("other").is_none());
    assert!(sign_jar(&cookie::CookieJar::new(), &secret).get(S_ID).is_none());
}
