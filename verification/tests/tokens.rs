use account_service::account::Account;
use account_service::cfg::{AppConfig, JWTConfig};
use account_service::error::{AppError, AuthInnerError};
use account_service::jwt_service::{
    bearer_token, Claims, TokenAuth, TokenSecretInfo, TokenType, UserInfo, WireClaims,
};
use account_service::types::{AccountStatus, Language};

fn token_cfg() -> AppConfig {
    AppConfig {
        env: "test".to_string(),
        host: "127.0.0.1".to_string(),
        port: 8080,
        db_url: String::new(),
        redis_url: String::new(),
        redis_prefix: "app".to_string(),
        mq_url: String::new(),
        access_token: JWTConfig { secret: "access-secret".to_string(), secret_expiration: 900 },
        refresh_token: JWTConfig { secret: "refresh-secret".to_string(), secret_expiration: 86400 },
    }
}

fn subject(status: AccountStatus) -> UserInfo {
    UserInfo { uid: 42, email: "ann@example.com".to_string(), status }
}

fn account(id: i64, status: AccountStatus) -> Account {
    Account {
        id,
        name: "ann".to_string(),
        email: "ann@example.com".to_string(),
        password: String::new(),
        status,
        language: Language::EnUs,
    }
}

fn invalid<T>(r: Result<T, AppError>) -> bool {
    matches!(r, Err(AppError::AuthError(AuthInnerError::InvalidToken)))
}

#[test]
fn issued_access_token_validates_and_matches_subject() {
    let cfg = token_cfg();
    for status in [AccountStatus::Active, AccountStatus::Inactive] {
        let pair = Claims::generate_tokens_at(&subject(status), &cfg, 1_000).unwrap();
        let claims =
            Claims::parse_token_at(&pair.access_token, TokenType::ACCESS, false, &cfg, 1_000)
                .unwrap();
        assert_eq!(claims.uid, 42);
        assert_eq!(claims.email, "ann@example.com");
        assert_eq!(claims.status, status);
        assert_eq!(claims.iat, 1_000);
        assert_eq!(claims.exp, 1_900);
    }
}

#[test]
fn issued_refresh_token_carries_its_own_window() {
    let cfg = token_cfg();
    let pair = Claims::generate_tokens_at(&subject(AccountStatus::Active), &cfg, 1_000).unwrap();
    let claims =
        Claims::parse_token_at(&pair.refresh_token, TokenType::REFRESH, true, &cfg, 1_000).unwrap();
    assert_eq!(claims.iat, 1_000);
    assert_eq!(claims.exp, 87_400);
}

#[test]
fn token_is_a_signed_string_not_the_claims() {
    let cfg = token_cfg();
    let pair = Claims::generate_tokens_at(&subject(AccountStatus::Active), &cfg, 1_000).unwrap();
    assert_eq!(pair.access_token.split('.').count(), 3);
    assert_ne!(pair.access_token, pair.refresh_token);
    assert!(!pair.access_token.contains("ann@example.com"));
}

#[test]
fn access_token_fails_against_refresh_secret() {
    let cfg = token_cfg();
    let pair = Claims::generate_tokens_at(&subject(AccountStatus::Active), &cfg, 1_000).unwrap();
    assert!(invalid(Claims::parse_token_at(
        &pair.access_token,
        TokenType::REFRESH,
        false,
        &cfg,
        1_000
    )));
    assert!(invalid(Claims::parse_token_at(
        &pair.refresh_token,
        TokenType::ACCESS,
        false,
        &cfg,
        1_000
    )));
}

#[test]
fn expired_token_is_invalid_whatever_the_status() {
    let cfg = token_cfg();
    for status in [AccountStatus::Active, AccountStatus::Inactive, AccountStatus::Suspend] {
        let pair = Claims::generate_tokens_at(&subject(status), &cfg, 1_000).unwrap();
        for flag in [false, true] {
            assert!(invalid(Claims::parse_token_at(
                &pair.access_token,
                TokenType::ACCESS,
                flag,
                &cfg,
                1_901
            )));
        }
    }
}

#[test]
fn token_is_valid_up_to_its_expiry() {
    let cfg = token_cfg();
    let pair = Claims::generate_tokens_at(&subject(AccountStatus::Active), &cfg, 1_000).unwrap();
    assert!(Claims::parse_token_at(&pair.access_token, TokenType::ACCESS, true, &cfg, 1_900)
        .is_ok());
}

#[test]
fn status_rule_of_validation() {
    let cfg = token_cfg();
    let suspended =
        Claims::generate_tokens_at(&subject(AccountStatus::Suspend), &cfg, 1_000).unwrap();
    assert!(invalid(Claims::parse_token_at(
        &suspended.access_token,
        TokenType::ACCESS,
        false,
        &cfg,
        1_000
    )));
    let inactive =
        Claims::generate_tokens_at(&subject(AccountStatus::Inactive), &cfg, 1_000).unwrap();
    assert!(invalid(Claims::parse_token_at(
        &inactive.access_token,
        TokenType::ACCESS,
        true,
        &cfg,
        1_000
    )));
    assert!(Claims::parse_token_at(&inactive.access_token, TokenType::ACCESS, false, &cfg, 1_000)
        .is_ok());
}

#[test]
fn garbage_and_tampered_tokens_are_invalid() {
    let cfg = token_cfg();
    assert!(invalid(Claims::parse_token_at("not a token", TokenType::ACCESS, false, &cfg, 0)));
    let pair = Claims::generate_tokens_at(&subject(AccountStatus::Active), &cfg, 1_000).unwrap();
    let mut tampered = pair.access_token.clone();
    let last = tampered.pop().unwrap();
    tampered.push(if last == 'A' { 'B' } else { 'A' });
    assert!(invalid(Claims::parse_token_at(&tampered, TokenType::ACCESS, false, &cfg, 1_000)));
}

#[test]
fn issue_fails_with_token_creation_before_the_epoch() {
    let cfg = token_cfg();
    let r = Claims::generate_tokens_at(&subject(AccountStatus::Active), &cfg, -1);
    assert!(matches!(r, Err(AppError::AuthError(AuthInnerError::TokenCreation))));
    let r = Claims::generate_tokens_at(&subject(AccountStatus::Active), &cfg, i64::MAX);
    assert!(matches!(r, Err(AppError::AuthError(AuthInnerError::TokenCreation))));
}

#[test]
fn check_takes_the_opened_claims_as_they_are() {
    let wire = |status: &str, exp: u64| WireClaims {
        uid: 7,
        email: "a@b".to_string(),
        status: status.to_string(),
        iat: 10,
        exp,
    };
    let ok = Claims::check(Some(wire("Inactive", 20)), 15, false).unwrap();
    assert_eq!((ok.uid, ok.iat, ok.exp, ok.status), (7, 10, 20, AccountStatus::Inactive));
    assert!(invalid(Claims::check(Some(wire("Inactive", 20)), 21, false)));
    assert!(invalid(Claims::check(Some(wire("Inactive", 20)), 15, true)));
    assert!(invalid(Claims::check(Some(wire("Suspend", 20)), 15, false)));
    assert!(invalid(Claims::check(Some(wire("Frozen", 20)), 15, false)));
    assert!(invalid(Claims::check(None, 15, false)));
    assert!(Claims::check(Some(wire("Active", 20)), 20, true).is_ok());
    assert!(Claims::check(Some(wire("Active", 20)), -5, true).is_ok());
}

#[test]
fn clock_reading_issue_and_validate_agree() {
    let cfg = token_cfg();
    let pair = Claims::generate_tokens(&subject(AccountStatus::Active), &cfg).unwrap();
    let claims = Claims::parse_token(&pair.access_token, TokenType::ACCESS, true, &cfg).unwrap();
    assert_eq!(claims.uid, 42);
    assert!(claims.iat > 1_600_000_000);
    assert_eq!(claims.exp, claims.iat + 900);
}

#[test]
fn secret_info_reads_the_configuration() {
    let cfg = token_cfg();
    assert_eq!(TokenSecretInfo::get_secret(TokenType::ACCESS, &cfg), b"access-secret");
    assert_eq!(TokenSecretInfo::get_secret(TokenType::REFRESH, &cfg), b"refresh-secret");
    assert_eq!(TokenSecretInfo::get_secret_expiration(TokenType::ACCESS, &cfg), 900);
    assert_eq!(TokenSecretInfo::get_secret_expiration(TokenType::REFRESH, &cfg), 86400);
    let info = TokenSecretInfo::new(TokenType::ACCESS, &cfg);
    let token = info.generate_token_at(&subject(AccountStatus::Suspend), 50).unwrap();
    let claims = info.parse_token_at(&token, 950).unwrap();
    assert_eq!(claims.status, AccountStatus::Suspend);
    assert!(invalid(info.parse_token_at(&token, 951)));
    let now_token = info.generate_token(&subject(AccountStatus::Active)).unwrap();
    assert_eq!(info.parse_token(&now_token).unwrap().uid, 42);
}

#[test]
fn refresh_reissues_from_the_store() {
    let cfg = token_cfg();
    let pair = Claims::generate_tokens_at(&subject(AccountStatus::Inactive), &cfg, 1_000).unwrap();
    assert_eq!(Claims::refresh_subject_at(&pair.refresh_token, &cfg, 2_000).unwrap(), 42);
    let now_active = account(42, AccountStatus::Active);
    let fresh =
        Claims::refresh_token_at(&pair.refresh_token, Some(&now_active), &cfg, 2_000).unwrap();
    let claims =
        Claims::parse_token_at(&fresh.access_token, TokenType::ACCESS, true, &cfg, 2_000).unwrap();
    assert_eq!(claims.status, AccountStatus::Active);
    assert_eq!(claims.iat, 2_000);
}

#[test]
fn refresh_for_suspended_account_is_rejected() {
    let cfg = token_cfg();
    let pair = Claims::generate_tokens_at(&subject(AccountStatus::Active), &cfg, 1_000).unwrap();
    let suspended = account(42, AccountStatus::Suspend);
    assert!(invalid(Claims::refresh_token_at(
        &pair.refresh_token,
        Some(&suspended),
        &cfg,
        2_000
    )));
    let issued_suspended =
        Claims::generate_tokens_at(&subject(AccountStatus::Suspend), &cfg, 1_000).unwrap();
    let active = account(42, AccountStatus::Active);
    assert!(invalid(Claims::refresh_token_at(
        &issued_suspended.refresh_token,
        Some(&active),
        &cfg,
        2_000
    )));
    assert!(invalid(Claims::refresh_subject_at(&issued_suspended.refresh_token, &cfg, 2_000)));
}

#[test]
fn refresh_failures() {
    let cfg = token_cfg();
    let pair = Claims::generate_tokens_at(&subject(AccountStatus::Active), &cfg, 1_000).unwrap();
    let r = Claims::refresh_token_at(&pair.refresh_token, None, &cfg, 2_000);
    assert!(matches!(r, Err(AppError::AuthError(AuthInnerError::WrongCredentials))));
    let other = account(43, AccountStatus::Active);
    let r = Claims::refresh_token_at(&pair.refresh_token, Some(&other), &cfg, 2_000);
    assert!(matches!(r, Err(AppError::AuthError(AuthInnerError::WrongCredentials))));
    let same = account(42, AccountStatus::Active);
    assert!(invalid(Claims::refresh_token_at(&pair.access_token, Some(&same), &cfg, 2_000)));
    assert!(invalid(Claims::refresh_token_at(&pair.refresh_token, Some(&same), &cfg, 90_000)));
    assert!(Claims::refresh_token(&pair.refresh_token, None, &cfg).is_err());
}

#[test]
fn refresh_at_the_clock() {
    let cfg = token_cfg();
    let pair = Claims::generate_tokens(&subject(AccountStatus::Inactive), &cfg).unwrap();
    let own = account(42, AccountStatus::Active);
    let fresh = Claims::refresh_token(&pair.refresh_token, Some(&own), &cfg).unwrap();
    let claims = Claims::parse_token(&fresh.access_token, TokenType::ACCESS, true, &cfg).unwrap();
    assert_eq!((claims.uid, claims.status), (42, AccountStatus::Active));
    let r = Claims::refresh_token(&pair.refresh_token, None, &cfg);
    assert!(matches!(r, Err(AppError::AuthError(AuthInnerError::WrongCredentials))));
    let suspended = account(42, AccountStatus::Suspend);
    assert!(invalid(Claims::refresh_token(&pair.refresh_token, Some(&suspended), &cfg)));
}

#[test]
fn refresh_of_a_token_that_never_validates() {
    let cfg = token_cfg();
    let own = account(42, AccountStatus::Active);
    assert!(invalid(Claims::refresh_token("not a token", Some(&own), &cfg)));
    assert!(invalid(Claims::refresh_token("not a token", None, &cfg)));
    let pair = Claims::generate_tokens(&subject(AccountStatus::Suspend), &cfg).unwrap();
    assert!(invalid(Claims::refresh_token(&pair.refresh_token, Some(&own), &cfg)));
    assert!(invalid(Claims::refresh_token(&pair.access_token, Some(&own), &cfg)));
}

#[test]
fn bearer_header_parsing() {
    assert_eq!(bearer_token("Bearer abc.def"), Some("abc.def"));
    assert_eq!(bearer_token("Bearer "), Some(""));
    assert_eq!(bearer_token("bearer abc"), None);
    assert_eq!(bearer_token("Bearer"), None);
    assert_eq!(bearer_token("Basic abc"), None);
    assert_eq!(bearer_token(""), None);
    assert_eq!(bearer_token("Bearer \u{e9}t\u{e9}"), Some("\u{e9}t\u{e9}"));
}

#[test]
fn authorize_reads_the_header() {
    let cfg = token_cfg();
    let pair = Claims::generate_tokens_at(&subject(AccountStatus::Inactive), &cfg, 1_000).unwrap();
    let header = format!("Bearer {}", pair.access_token);
    assert_eq!(Claims::authorize_at(Some(&header), false, &cfg, 1_000).unwrap().uid, 42);
    assert!(invalid(Claims::authorize_at(Some(&header), true, &cfg, 1_000)));
    assert!(invalid(Claims::authorize_at(Some(&pair.access_token), false, &cfg, 1_000)));
    assert!(invalid(Claims::authorize_at(None, false, &cfg, 1_000)));
    assert!(invalid(Claims::authorize(None, false, &cfg)));
}

#[test]
fn status_names() {
    assert_eq!(AccountStatus::Active.name(), "Active");
    assert_eq!(AccountStatus::Inactive.name(), "Inactive");
    assert_eq!(AccountStatus::Suspend.name(), "Suspend");
    for s in [AccountStatus::Active, AccountStatus::Inactive, AccountStatus::Suspend] {
        assert_eq!(AccountStatus::from_name(s.name()), Some(s));
    }
    assert_eq!(AccountStatus::from_name("active"), None);
    assert_eq!(AccountStatus::from_name(""), None);
}

fn shared_secret_cfg() -> AppConfig {
    let mut cfg = token_cfg();
    cfg.access_token.secret = "refresh-secret".to_string();
    cfg
}

fn creation_failed<T>(r: Result<T, AppError>) -> bool {
    matches!(r, Err(AppError::AuthError(AuthInnerError::TokenCreation)))
}

#[test]
fn configuration_tells_whether_its_secrets_differ() {
    assert!(token_cfg().has_distinct_secrets());
    assert!(!shared_secret_cfg().has_distinct_secrets());
    let mut longer = shared_secret_cfg();
    longer.access_token.secret.push('x');
    assert!(longer.has_distinct_secrets());
}

#[test]
fn shared_secret_issues_nothing() {
    let cfg = shared_secret_cfg();
    let who = subject(AccountStatus::Active);
    assert!(creation_failed(Claims::generate_tokens_at(&who, &cfg, 1_000)));
    assert!(creation_failed(Claims::generate_tokens(&who, &cfg)));
    let holder = account(42, AccountStatus::Active);
    assert!(creation_failed(Claims::generate_tokens_for_user_at(&holder, &cfg, 1_000)));
    assert!(creation_failed(Claims::generate_tokens_for_user(&holder, &cfg)));
    for kind in [TokenType::ACCESS, TokenType::REFRESH] {
        let info = TokenSecretInfo::new(kind, &cfg);
        assert!(creation_failed(info.generate_token_at(&who, 1_000)));
        assert!(creation_failed(info.generate_token(&who)));
    }
}

#[test]
fn shared_secret_accepts_nothing() {
    let good = token_cfg();
    let pair = Claims::generate_tokens_at(&subject(AccountStatus::Active), &good, 1_000).unwrap();
    assert!(Claims::parse_token_at(&pair.refresh_token, TokenType::REFRESH, false, &good, 1_000)
        .is_ok());

    let shared = shared_secret_cfg();
    for kind in [TokenType::ACCESS, TokenType::REFRESH] {
        assert!(invalid(Claims::parse_token_at(&pair.refresh_token, kind, false, &shared, 1_000)));
        assert!(invalid(Claims::parse_token(&pair.refresh_token, kind, false, &shared)));
        let info = TokenSecretInfo::new(kind, &shared);
        assert!(invalid(info.parse_token_at(&pair.refresh_token, 1_000)));
        assert!(invalid(info.parse_token(&pair.refresh_token)));
    }
    let header = format!("Bearer {}", pair.refresh_token);
    assert!(invalid(Claims::authorize_at(Some(&header), false, &shared, 1_000)));
    assert!(invalid(Claims::authorize(Some(&header), false, &shared)));
    assert!(invalid(Claims::refresh_subject_at(&pair.refresh_token, &shared, 1_000)));
    let holder = account(42, AccountStatus::Active);
    assert!(invalid(Claims::refresh_token_at(&pair.refresh_token, Some(&holder), &shared, 1_000)));
    assert!(invalid(Claims::refresh_token(&pair.refresh_token, Some(&holder), &shared)));
}

#[test]
fn refresh_token_is_no_access_token() {
    let cfg = token_cfg();
    let pair = Claims::generate_tokens_at(&subject(AccountStatus::Active), &cfg, 1_000).unwrap();
    let header = format!("Bearer {}", pair.refresh_token);
    assert!(invalid(Claims::authorize_at(Some(&header), false, &cfg, 1_000)));
    let header = format!("Bearer {}", pair.access_token);
    let claims = Claims::authorize_at(Some(&header), true, &cfg, 1_000).unwrap();
    assert_eq!(claims.uid, 42);
    assert_eq!(claims.email, "ann@example.com");
    assert_eq!(claims.exp, 1_900);
}
