use account_service::account::Account;
use account_service::cfg::{
    config, AppConfig, Config, ConfigSlot, JWTConfig, LogConfig, MailConfig,
};
use account_service::crypto::{hash_password, hashed_from, random_words, verify_password};
use account_service::entity::{LoginResponse, RegisterUserRequest};
use account_service::error::{
    ApiInnerError, AppError, AppInnerError, AuthInnerError, MqerError, RedisorError,
};
use account_service::jwt_service::{Claims, TokenSchema, TokenType};
use account_service::login::{
    find_account, get_me, login, login_at, login_with_at, register, register_with,
};
use account_service::mailor::Email;
use account_service::text::{i64_text, join2, join3, push_decimal, str_eq};
use account_service::types::{AccountStatus, Language};

fn whole_cfg(tag: &str) -> Config {
    Config {
        log: LogConfig {
            path: "logs".to_string(),
            mine_formatting_level: "debug".to_string(),
            other_formatting_level: "info".to_string(),
            mine_file: "mine.log".to_string(),
            other_file: "other.log".to_string(),
            database_file: "db.log".to_string(),
            error_file: "error.log".to_string(),
            file_level: "info".to_string(),
            mine_target: "app".to_string(),
            database_target: "sqlx".to_string(),
        },
        app: AppConfig {
            env: tag.to_string(),
            host: "127.0.0.1".to_string(),
            port: 8080,
            db_url: String::new(),
            redis_url: String::new(),
            redis_prefix: "app".to_string(),
            mq_url: String::new(),
            access_token: JWTConfig { secret: "a".to_string(), secret_expiration: 900 },
            refresh_token: JWTConfig { secret: "r".to_string(), secret_expiration: 86400 },
        },
        mail: MailConfig {
            username: "noreply@example.com".to_string(),
            password: "hunter2".to_string(),
            host: "smtp.example.com".to_string(),
        },
    }
}

fn user_with(id: i64, name: &str, password: &str) -> Account {
    Account {
        id,
        name: name.to_string(),
        email: format!("{name}@example.com"),
        password: hash_password(password.as_bytes()).unwrap(),
        status: AccountStatus::Active,
        language: Language::FrFr,
    }
}

#[test]
fn every_credential_fault_has_its_code() {
    let table = [
        (AuthInnerError::WrongCredentials, 401, 10001),
        (AuthInnerError::TokenCreation, 403, 10002),
        (AuthInnerError::InvalidToken, 401, 10003),
        (AuthInnerError::UserAlreadyExists, 409, 10004),
        (AuthInnerError::MissingCredentials, 401, 10005),
        (AuthInnerError::WrongCode, 401, 10006),
        (AuthInnerError::AccountSuspended, 401, 10007),
        (AuthInnerError::InvalidTokenType, 401, 10008),
        (AuthInnerError::UserAlreadyActivated, 409, 10009),
    ];
    for (e, status, code) in table {
        assert_eq!(AppError::select_status_code(&AppError::AuthError(e)), (status, code));
    }
}

#[test]
fn request_faults_and_the_rest() {
    let code = |e: AppError| AppError::select_status_code(&e);
    assert_eq!(code(AppError::ApiError(ApiInnerError::ValidationError("x".into()))), (422, 20001));
    assert_eq!(
        code(AppError::ApiError(ApiInnerError::AxumFormRejection("x".into()))),
        (422, 20001)
    );
    assert_eq!(code(AppError::ApiError(ApiInnerError::CodeIntervalRejection)), (200, 30001));
    assert_eq!(code(AppError::Unknown("x".into())), (400, 99999));
    assert_eq!(code(AppError::Anyhow("x".into())), (400, 99999));
    assert_eq!(code(AppError::ErrSystem(String::new())), (400, 99999));
    for inner in [
        AppInnerError::DataBaseError("x".into()),
        AppInnerError::RedisError(RedisorError::PoolError("x".into())),
        AppInnerError::RedisError(RedisorError::ExeError("x".into())),
        AppInnerError::MQError(MqerError::PoolError("x".into())),
        AppInnerError::MQError(MqerError::ExeError("x".into())),
        AppInnerError::JsonError("x".into()),
        AppInnerError::EmailError("x".into()),
        AppInnerError::Unknown("x".into()),
        AppInnerError::Anyhow("x".into()),
    ] {
        assert_eq!(code(AppError::InnerError(inner)), (400, 99999));
    }
}

#[test]
fn status_of_a_response() {
    assert_eq!(AppError::response_status(None), (200, 0));
    let e = AppError::AuthError(AuthInnerError::WrongCode);
    assert_eq!(AppError::response_status(Some(&e)), (401, 10006));
}

#[test]
fn messages_of_credential_faults() {
    assert_eq!(AuthInnerError::UserAlreadyExists.message(), "UserAlreadyExists");
    assert_eq!(AuthInnerError::WrongCredentials.message(), "WrongCredentials");
    assert_eq!(AuthInnerError::MissingCredentials.message(), "MissingCredentials");
    assert_eq!(AuthInnerError::TokenCreation.message(), "TokenCreation");
    assert_eq!(AuthInnerError::InvalidToken.message(), "InvalidToken");
    assert_eq!(AuthInnerError::WrongCode.message(), "WrongCode");
    assert_eq!(AuthInnerError::AccountSuspended.message(), "AccountSuspended");
    assert_eq!(AuthInnerError::InvalidTokenType.message(), "InvalidTokenType");
    assert_eq!(AuthInnerError::UserAlreadyActivated.message(), "UserAlreadyActivated");
}

#[test]
fn decimal_text() {
    assert_eq!(i64_text(0), "0");
    assert_eq!(i64_text(7), "7");
    assert_eq!(i64_text(10), "10");
    assert_eq!(i64_text(-1), "-1");
    assert_eq!(i64_text(1234567890), "1234567890");
    assert_eq!(i64_text(i64::MAX), i64::MAX.to_string());
    assert_eq!(i64_text(i64::MIN), i64::MIN.to_string());
    let mut out = "n=".to_string();
    push_decimal(&mut out, u64::MAX);
    assert_eq!(out, "n=18446744073709551615");
}

#[test]
fn joining_and_comparing_text() {
    assert_eq!(join2("ab", "cd"), "abcd");
    assert_eq!(join3("a", ":", "b"), "a:b");
    assert_eq!(join3("", "", ""), "");
    assert!(str_eq("abc", "abc"));
    assert!(!str_eq("abc", "abd"));
    assert!(!str_eq("abc", "ab"));
}

#[test]
fn random_words_have_the_length_asked_for() {
    for n in [0usize, 1, 6, 64] {
        let w = random_words(n);
        assert_eq!(w.len(), n);
        assert!(w.chars().all(|c| c.is_ascii_alphanumeric()));
    }
    assert_ne!(random_words(32), random_words(32));
}

#[test]
fn password_hash_round_trip() {
    let stored = hash_password(b"correct horse").unwrap();
    assert!(stored.starts_with("$argon2"));
    assert_ne!(stored, hash_password(b"correct horse").unwrap());
    assert_eq!(verify_password(&stored, "correct horse"), Ok(true));
    assert_eq!(verify_password(&stored, "wrong horse"), Ok(false));
    assert_eq!(verify_password("not a hash", "correct horse"), Ok(false));
    assert_eq!(verify_password("", ""), Ok(false));
}

#[test]
fn hash_accepts_the_password_it_was_made_of() {
    for password in ["", "a", "correct horse", "p\u{e4}ssw\u{f6}rd \u{1f511}"] {
        let stored = hash_password(password.as_bytes()).unwrap();
        assert_ne!(stored, password);
        assert_eq!(verify_password(&stored, password), Ok(true));
        let other = format!("{password}x");
        assert_eq!(verify_password(&stored, &other), Ok(false));
    }
}

#[test]
fn failed_hashing_quotes_the_reason() {
    assert_eq!(hashed_from(Ok("$h".to_string())), Ok("$h".to_string()));
    assert_eq!(
        hashed_from(Err("out of memory".to_string())),
        Err(AppError::Anyhow("Error while hashing password: out of memory".to_string()))
    );
}

#[test]
fn first_configuration_stays() {
    let mut slot = ConfigSlot::new();
    assert!(!slot.is_loaded());
    assert!(slot.init(whole_cfg("first")));
    assert!(slot.is_loaded());
    assert!(!slot.init(whole_cfg("second")));
    assert_eq!(config(&slot).app.env, "first");
    assert_eq!(config(&slot).mail.host, "smtp.example.com");
}

#[test]
fn mail_is_put_together() {
    let cfg = whole_cfg("t");
    let mail = Email::new("ann@example.com", "Hello", "Dear Ann", &cfg.mail);
    assert_eq!(mail.to, "ann@example.com");
    assert_eq!(mail.subject, "Hello");
    assert_eq!(mail.body, "Dear Ann");
    assert_eq!(mail.config.username, "noreply@example.com");
    assert_eq!(mail.config.password, "hunter2");
    assert_eq!(mail.config.host, "smtp.example.com");
}

#[test]
fn login_takes_the_first_account_that_the_password_opens() {
    let cfg = whole_cfg("t").app;
    let users = vec![user_with(1, "ann", "one"), user_with(2, "bob", "two"), user_with(3, "cy", "two")];
    assert_eq!(find_account(&users, "two"), Some(1));
    assert_eq!(find_account(&users, "one"), Some(0));
    assert_eq!(find_account(&users, "three"), None);
    let answer = login_at(&users, "two", &cfg, 500).unwrap();
    assert_eq!(answer.name, "bob");
    assert_eq!(answer.email, "bob@example.com");
    assert_eq!(answer.language, Language::FrFr);
    let claims =
        Claims::parse_token_at(&answer.tokens.access_token, TokenType::ACCESS, true, &cfg, 500)
            .unwrap();
    assert_eq!((claims.uid, claims.iat), (2, 500));
    assert_eq!(login(&users, "one", &cfg).unwrap().name, "ann");
}

#[test]
fn login_with_wrong_password_or_no_account() {
    let cfg = whole_cfg("t").app;
    let users = vec![user_with(1, "ann", "one")];
    let r = login_at(&users, "two", &cfg, 500);
    assert!(matches!(r, Err(AppError::AuthError(AuthInnerError::WrongCredentials))));
    let r = login_at(&Vec::new(), "one", &cfg, 500);
    assert!(matches!(r, Err(AppError::AuthError(AuthInnerError::WrongCredentials))));
    let r = login(&Vec::new(), "one", &cfg);
    assert!(matches!(r, Err(AppError::AuthError(AuthInnerError::WrongCredentials))));
    let r = login_at(&users, "one", &cfg, -1);
    assert!(matches!(r, Err(AppError::AuthError(AuthInnerError::TokenCreation))));
}

#[test]
fn login_follows_the_search() {
    let cfg = whole_cfg("t").app;
    let users = vec![user_with(1, "ann", "one"), user_with(2, "bob", "two")];
    let answer = login_with_at(&users, Some(1), &cfg, 500).unwrap();
    assert_eq!((answer.name.as_str(), answer.email.as_str()), ("bob", "bob@example.com"));
    let claims =
        Claims::parse_token_at(&answer.tokens.refresh_token, TokenType::REFRESH, true, &cfg, 500)
            .unwrap();
    assert_eq!((claims.uid, claims.exp), (2, 86_900));
    for found in [None, Some(2), Some(usize::MAX)] {
        let r = login_with_at(&users, found, &cfg, 500);
        assert!(matches!(r, Err(AppError::AuthError(AuthInnerError::WrongCredentials))));
    }
    let r = login_with_at(&users, Some(0), &cfg, -1);
    assert!(matches!(r, Err(AppError::AuthError(AuthInnerError::TokenCreation))));
}

#[test]
fn registration_needs_a_free_address() {
    let body = RegisterUserRequest {
        name: "ann".to_string(),
        email: "ann@example.com".to_string(),
        password: "one".to_string(),
    };
    for taken in [Some(true), None] {
        let r = register(taken, &body);
        assert!(matches!(r, Err(AppError::AuthError(AuthInnerError::UserAlreadyExists))));
        let r = register_with(taken, &body, "$h".to_string());
        assert!(matches!(r, Err(AppError::AuthError(AuthInnerError::UserAlreadyExists))));
    }
    let item = register_with(Some(false), &body, "$h".to_string()).unwrap();
    assert_eq!((item.name.as_str(), item.email.as_str(), item.password.as_str()), ("ann", "ann@example.com", "$h"));
    let item = register(Some(false), &body).unwrap();
    assert_eq!(item.email, "ann@example.com");
    assert_eq!(verify_password(&item.password, "one"), Ok(true));
}

#[test]
fn account_sees_itself() {
    let mut user = user_with(1, "ann", "one");
    user.status = AccountStatus::Inactive;
    let me = get_me(Some(&user)).unwrap();
    assert_eq!(me.email, "ann@example.com");
    assert_eq!(me.language, Language::FrFr);
    assert_eq!(me.status, AccountStatus::Inactive);
    assert!(matches!(get_me(None), Err(AppError::AuthError(AuthInnerError::InvalidToken))));
}

#[test]
fn login_response_is_built_from_tokens_and_account() {
    let tokens = TokenSchema { refresh_token: "r".to_string(), access_token: "a".to_string() };
    let answer = LoginResponse::new(tokens, user_with(1, "ann", "one"));
    assert_eq!(answer.tokens.access_token, "a");
    assert_eq!(answer.tokens.refresh_token, "r");
    assert_eq!(answer.name, "ann");
    assert_eq!(answer.email, "ann@example.com");
    assert_eq!(answer.language, Language::FrFr);
}

#[test]
fn configuration_with_one_secret_for_both_kinds_is_refused() {
    let mut shared = whole_cfg("shared");
    shared.app.refresh_token.secret = shared.app.access_token.secret.clone();
    let mut slot = ConfigSlot::new();
    assert!(!slot.init(shared));
    assert!(!slot.is_loaded());
    assert!(slot.init(whole_cfg("good")));
    assert_eq!(config(&slot).app.env, "good");
    assert!(config(&slot).app.has_distinct_secrets());
}

#[test]
fn login_under_a_shared_secret_issues_nothing() {
    let mut cfg = whole_cfg("shared").app;
    cfg.refresh_token.secret = cfg.access_token.secret.clone();
    let users = vec![user_with(1, "ann", "one")];
    let r = login_at(&users, "one", &cfg, 1_000);
    assert!(matches!(r, Err(AppError::AuthError(AuthInnerError::TokenCreation))));
    let r = login(&users, "one", &cfg);
    assert!(matches!(r, Err(AppError::AuthError(AuthInnerError::TokenCreation))));
    let r = login(&users, "two", &cfg);
    assert!(matches!(r, Err(AppError::AuthError(AuthInnerError::WrongCredentials))));
}
