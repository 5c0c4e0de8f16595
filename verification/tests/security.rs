use hits_core::error::AppError;
use hits_core::role::Role;
use hits_core::security::{
    authenticate, generate_tokens, generate_tokens_at, hash_password, hash_password_with, issue,
    seconds_since_epoch, session, session_cookies, verify_password, Claims, Presented, SameSite, TokenType, ACCESS_TTL, REFRESH_TTL,
};

fn claims(kind: TokenType, exp: u64) -> Claims {
    Claims {
        sub: 7,
        email: "a@x.com".to_string(),
        first_name: "Ada".to_string(),
        last_name: "Lovelace".to_string(),
        exp,
        iat: 1_000,
        token_type: kind,
        roles: vec![Role::Admin],
    }
}

#[test]
fn hash_then_verify_round_trips() {
    let hash = hash_password("correct horse").unwrap();
    assert!(verify_password(&hash, "correct horse"));
    assert!(!verify_password(&hash, "correct horsf"));
}

#[test]
fn hash_describes_salt_and_parameters_and_is_salted_afresh() {
    let first = hash_password("pw").unwrap();
    let second = hash_password("pw").unwrap();
    assert!(first.starts_with("$argon2id$v=19$m=19456,t=2,p=1$"));
    assert_ne!(first, "pw");
    assert_ne!(first, second);
}

#[test]
fn verify_against_tampered_hash_is_false() {
    let hash = hash_password("secret-password").unwrap();
    let mut tampered = hash.clone();
    let last = tampered.pop().unwrap();
    tampered.push(if last == 'A' { 'B' } else { 'A' });
    assert!(!verify_password(&tampered, "secret-password"));
}

#[test]
fn verify_against_malformed_hash_is_false_and_does_not_panic() {
    assert!(!verify_password("", "pw"));
    assert!(!verify_password("not a hash", "pw"));
    assert!(!verify_password("$argon2id$", "pw"));
    assert!(!verify_password("$argon2id$v=19$m=19456,t=2,p=1$", "pw"));
    assert!(!verify_password("pw", "pw"));
}

#[test]
fn issue_keeps_the_subject_and_sets_kind_and_lifetime() {
    let subject = claims(TokenType::Access, 2_000);
    assert_eq!(
        issue(&subject, TokenType::Refresh, 5_000),
        Claims { exp: 609_800, iat: 5_000, token_type: TokenType::Refresh, ..subject.clone() }
    );
    assert_eq!(
        issue(&subject, TokenType::Access, 5_000),
        Claims { exp: 5_900, iat: 5_000, token_type: TokenType::Access, ..subject }
    );
}

#[test]
fn token_pair_has_the_two_lifetimes() {
    let pair = generate_tokens_at(
        1_700_000_000,
        42,
        "a@x.com".to_string(),
        "Ada".to_string(),
        "Lovelace".to_string(),
        vec![Role::Admin, Role::Initiator],
    );
    assert_eq!(
        pair.access,
        Claims {
            sub: 42,
            email: "a@x.com".to_string(),
            first_name: "Ada".to_string(),
            last_name: "Lovelace".to_string(),
            exp: 1_700_000_900,
            iat: 1_700_000_000,
            token_type: TokenType::Access,
            roles: vec![Role::Admin, Role::Initiator],
        }
    );
    assert_eq!(pair.refresh.exp, 1_700_604_800);
    assert_eq!(pair.refresh.token_type, TokenType::Refresh);
    assert_eq!(pair.refresh.iat, pair.access.iat);
    assert_eq!(pair.refresh.roles, pair.access.roles);
    assert_eq!(pair.refresh.sub, 42);
    assert_eq!(ACCESS_TTL, 900);
    assert_eq!(REFRESH_TTL, 604_800);
}

#[test]
fn reading_before_the_epoch_stands_for_the_epoch() {
    assert_eq!(seconds_since_epoch(-1), 0);
    assert_eq!(seconds_since_epoch(i64::MIN), 0);
    assert_eq!(seconds_since_epoch(0), 0);
    assert_eq!(seconds_since_epoch(1_700_000_000), 1_700_000_000);
    assert_eq!(seconds_since_epoch(i64::MAX), 9_223_372_036_854_775_807);
}

#[test]
fn token_pair_is_issued_at_the_present_time() {
    let pair = generate_tokens(
        1,
        "a@x.com".to_string(),
        "Ada".to_string(),
        "Lovelace".to_string(),
        vec![],
    )
    .unwrap();
    assert!(pair.access.iat > 1_600_000_000);
    assert_eq!(pair.access.exp - pair.access.iat, 900);
    assert_eq!(pair.refresh.exp - pair.refresh.iat, 604_800);
}

#[test]
fn access_token_is_accepted_before_expiry_only() {
    let token = claims(TokenType::Access, 2_000);
    assert_eq!(
        authenticate(Presented::Decoded(token.clone()), TokenType::Access, 0),
        Ok(token.clone())
    );
    assert_eq!(
        authenticate(Presented::Decoded(token.clone()), TokenType::Access, 1_999),
        Ok(token.clone())
    );
    assert_eq!(
        authenticate(Presented::Decoded(token.clone()), TokenType::Access, 2_000),
        Err(AppError::InvalidToken)
    );
    assert_eq!(
        authenticate(Presented::Decoded(token), TokenType::Access, 2_001),
        Err(AppError::InvalidToken)
    );
}

#[test]
fn refresh_token_is_accepted_before_expiry_only() {
    let token = claims(TokenType::Refresh, 2_000);
    assert_eq!(
        authenticate(Presented::Decoded(token.clone()), TokenType::Refresh, 1_999),
        Ok(token.clone())
    );
    assert_eq!(
        authenticate(Presented::Decoded(token), TokenType::Refresh, 2_000),
        Err(AppError::InvalidToken)
    );
}

#[test]
fn token_is_live_before_its_expiry_only() {
    let token = claims(TokenType::Access, 2_000);
    assert!(token.is_live(1_999));
    assert!(!token.is_live(2_000));
    assert!(!claims(TokenType::Access, 0).is_live(0));
}

#[test]
fn refresh_token_is_rejected_where_access_is_required() {
    let token = claims(TokenType::Refresh, 2_000);
    assert_eq!(
        authenticate(Presented::Decoded(token.clone()), TokenType::Access, 1_500),
        Err(AppError::InvalidToken)
    );
    assert_eq!(
        authenticate(Presented::Decoded(token.clone()), TokenType::Refresh, 1_500),
        Ok(token)
    );
}

#[test]
fn access_token_is_rejected_where_refresh_is_required() {
    let token = claims(TokenType::Access, 2_000);
    assert_eq!(
        authenticate(Presented::Decoded(token), TokenType::Refresh, 1_500),
        Err(AppError::InvalidToken)
    );
}

#[test]
fn missing_cookie_is_unauthenticated_and_bad_token_is_invalid() {
    assert_eq!(
        authenticate(Presented::Absent, TokenType::Access, 0),
        Err(AppError::WrongCredentials)
    );
    assert_eq!(
        authenticate(Presented::Unreadable, TokenType::Access, 0),
        Err(AppError::InvalidToken)
    );
}

#[test]
fn request_with_fresh_access_token_is_authenticated_now() {
    let pair = generate_tokens(
        9,
        "a@x.com".to_string(),
        "Ada".to_string(),
        "Lovelace".to_string(),
        vec![Role::Expert],
    )
    .unwrap();
    assert_eq!(
        Claims::from_request_parts(Presented::Decoded(pair.access.clone())),
        Ok(pair.access)
    );
    assert_eq!(
        Claims::from_request_parts(Presented::Decoded(pair.refresh)),
        Err(AppError::InvalidToken)
    );
    assert_eq!(
        Claims::from_request_parts(Presented::Decoded(claims(TokenType::Access, 2_000))),
        Err(AppError::InvalidToken)
    );
    assert_eq!(Claims::from_request_parts(Presented::Absent), Err(AppError::WrongCredentials));
}

#[test]
fn cookie_presents_its_payload_or_why_it_has_none() {
    let token = hits_core::token::seal(b"{\"exp\":1}", b"secret").unwrap();
    assert_eq!(Presented::payload(Some(token.as_str()), b"secret"), Ok(b"{\"exp\":1}".to_vec()));
    assert_eq!(Presented::payload(Some(token.as_str()), b"other"), Err(Presented::Unreadable));
    assert_eq!(Presented::payload(Some("no token"), b"secret"), Err(Presented::Unreadable));
    assert_eq!(Presented::payload(None, b"secret"), Err(Presented::Absent));
    assert_eq!(Presented::read(None), Presented::Unreadable);
    let token = claims(TokenType::Access, 2_000);
    assert_eq!(Presented::read(Some(token.clone())), Presented::Decoded(token));
}

#[test]
fn session_cookies_are_http_only_lax_and_rooted() {
    let cookies = session_cookies("aaa".to_string(), "rrr".to_string(), true);
    assert_eq!(cookies.access.name, "access_token");
    assert_eq!(cookies.access.value, "aaa");
    assert_eq!(cookies.access.path, "/");
    assert!(cookies.access.http_only);
    assert_eq!(cookies.access.same_site, SameSite::Lax);
    assert!(cookies.access.secure);
    assert_eq!(cookies.access.max_age, 1_800);
    assert_eq!(cookies.refresh.name, "refresh_token");
    assert_eq!(cookies.refresh.value, "rrr");
    assert_eq!(cookies.refresh.path, "/");
    assert!(cookies.refresh.http_only);
    assert_eq!(cookies.refresh.same_site, SameSite::Lax);
    assert_eq!(cookies.refresh.max_age, 2_592_000);
    assert!(!session_cookies(String::new(), String::new(), false).access.secure);
}

#[test]
fn session_seals_both_tokens_into_their_cookies() {
    let cookies = session(b"{\"exp\":1}", b"{\"exp\":2}", b"secret", true).unwrap();
    assert_eq!(cookies.access.name, "access_token");
    assert_eq!(cookies.refresh.name, "refresh_token");
    assert_eq!(cookies.access.max_age, 1_800);
    assert_eq!(cookies.refresh.max_age, 2_592_000);
    assert!(cookies.access.secure && cookies.access.http_only);
    assert_eq!(
        hits_core::token::open(&cookies.access.value, b"secret"),
        Ok(b"{\"exp\":1}".to_vec())
    );
    assert_eq!(
        hits_core::token::open(&cookies.refresh.value, b"secret"),
        Ok(b"{\"exp\":2}".to_vec())
    );
    assert_eq!(
        Presented::payload(Some(cookies.access.value.as_str()), b"secret"),
        Ok(b"{\"exp\":1}".to_vec())
    );
    assert_eq!(cookies.access.value, hits_core::token::seal(b"{\"exp\":1}", b"secret").unwrap());
}

#[test]
fn session_without_a_token_that_can_be_sealed_has_no_cookies() {
    assert_eq!(session(b"{}", b"{\"exp\":2}", b"secret", true), Err(AppError::TokenCreation));
    assert_eq!(session(b"{\"exp\":1}", b"", b"secret", false), Err(AppError::TokenCreation));
}

#[test]
fn cookie_names_follow_the_kind() {
    assert_eq!(TokenType::Access.cookie(), "access_token");
    assert_eq!(TokenType::Refresh.cookie(), "refresh_token");
}

#[test]
fn hash_under_a_given_salt_is_the_same_each_time() {
    let one = hash_password_with("12345678", "c29tZXNhbHQ").unwrap();
    let two = hash_password_with("12345678", "c29tZXNhbHQ").unwrap();
    assert_eq!(one, two);
    assert!(one.starts_with("$argon2id$v=19$m=19456,t=2,p=1$c29tZXNhbHQ$"));
    assert_ne!(one, "12345678");
    assert!(verify_password(&one, "12345678"));
    assert!(!verify_password(&one, "12345679"));
}

#[test]
fn hash_depends_on_the_salt_and_on_the_password() {
    let one = hash_password_with("12345678", "c29tZXNhbHQ").unwrap();
    assert_ne!(hash_password_with("12345678", "b3RoZXJzYWx0").unwrap(), one);
    assert_ne!(hash_password_with("12345679", "c29tZXNhbHQ").unwrap(), one);
}

#[test]
fn hash_under_what_is_no_salt_is_an_internal_error() {
    assert_eq!(hash_password_with("12345678", ""), Err(AppError::InternalServerError));
    assert_eq!(hash_password_with("12345678", "no salt!"), Err(AppError::InternalServerError));
    assert_eq!(hash_password_with("12345678", "abc"), Err(AppError::InternalServerError));
}

#[test]
fn every_ordinary_password_gets_a_hash() {
    let long = "p".repeat(10_000);
    for password in ["", "a", "12345678", "пароль", long.as_str()] {
        let hash = hash_password(password).unwrap();
        assert!(verify_password(&hash, password));
    }
}
