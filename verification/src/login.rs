//! Registration, login by password, and an account's view of itself.
//!
//! The account store is the caller's. Each function here takes what the
//! caller read from it and answers with what to send back or write.
use vstd::prelude::*;
use crate::account::{Account, RegisterSchema};
use crate::cfg::AppConfig;
use crate::crypto::{argon2_accepts, hash_password, hashing_failure_prefix, verify_password};
use crate::entity::{LoginResponse, RegisterUserRequest, UserResponse};
use crate::error::{AppError, AppResult, AuthInnerError};
use crate::jwt_service::{can_issue, issue_answer, issued_pair, subject_of, Claims};
use crate::text::starts_with;
use vstd::utf8::encode_utf8;

verus! {

/// Whether the bytes `password` open the account at `index`, and none
/// before it.
pub open spec fn is_first_match(users: Seq<Account>, password: Seq<u8>, index: int) -> bool {
    &&& 0 <= index < users.len()
    &&& argon2_accepts(users[index].password@, password)
    &&& forall|j: int| 0 <= j < index ==> !argon2_accepts(#[trigger] users[j].password@, password)
}

/// Whether the bytes `password` open none of the accounts.
pub open spec fn no_match(users: Seq<Account>, password: Seq<u8>) -> bool {
    forall|j: int| 0 <= j < users.len() ==> !argon2_accepts(#[trigger] users[j].password@, password)
}

/// The index of the first account that `password` opens.
pub fn find_account(users: &Vec<Account>, password: &str) -> (r: Option<usize>)
    ensures
        match r {
            Some(index) => is_first_match(
                users@,
                encode_utf8(password@),
                index as int,
            ),
            None => no_match(users@, encode_utf8(password@)),
        },
{
    let mut index: usize = 0;
    while index < users.len()
        invariant
            index <= users.len(),
            forall|j: int|
                0 <= j < index ==> !argon2_accepts(
                    #[trigger] users@[j].password@,
                    encode_utf8(password@),
                ),
        decreases users.len() - index,
    {
        let opened = match verify_password(users[index].password.as_str(), password) {
            Ok(opened) => opened,
            Err(_) => false,
        };
        if opened {
            return Some(index);
        }
        index = index + 1;
    }
    None
}

/// What a login makes of the search among the accounts, at `now`.
///
/// `found` is the index of the account that the password opened. That
/// account gets both tokens, or the login fails with `TokenCreation` where
/// they cannot be issued. Where nothing was found, the answer is
/// `WrongCredentials`.
pub fn login_with_at(users: &Vec<Account>, found: Option<usize>, cfg: &AppConfig, now: i64) -> (r:
    AppResult<LoginResponse>)
    ensures
        match found {
            Some(index) if index < users.len() => {
                &&& r is Ok <==> can_issue(subject_of(users@[index as int]), *cfg, now as int)
                &&& r matches Ok(answer) ==> {
                    &&& answer.name@ == users@[index as int].name@
                    &&& answer.email@ == users@[index as int].email@
                    &&& answer.language == users@[index as int].language
                    &&& issued_pair(
                        answer.tokens@,
                        subject_of(users@[index as int]),
                        *cfg,
                        now as int,
                    )
                }
                &&& r matches Err(e) ==> e == AppError::AuthError(AuthInnerError::TokenCreation)
            },
            _ => r == Err::<LoginResponse, AppError>(
                AppError::AuthError(AuthInnerError::WrongCredentials),
            ),
        },
{
    match found {
        Some(index) => {
            if index >= users.len() {
                return Err(AppError::AuthError(AuthInnerError::WrongCredentials));
            }
            let user = &users[index];
            let tokens = Claims::generate_tokens_for_user_at(user, cfg, now)?;
            Ok(
                LoginResponse {
                    tokens,
                    name: user.name.clone(),
                    email: user.email.clone(),
                    language: user.language,
                },
            )
        },
        None => Err(AppError::AuthError(AuthInnerError::WrongCredentials)),
    }
}

/// What a login answers for `user`, the account that the password opened,
/// at `now`: both tokens with the account's name, address and language,
/// exactly where the tokens can be issued, and `TokenCreation` elsewhere.
pub open spec fn logged_in(r: AppResult<LoginResponse>, user: Account, cfg: AppConfig, now: int)
    -> bool {
    &&& r is Ok <==> can_issue(subject_of(user), cfg, now)
    &&& r matches Ok(answer) ==> {
        &&& answer.name@ == user.name@
        &&& answer.email@ == user.email@
        &&& answer.language == user.language
        &&& issued_pair(answer.tokens@, subject_of(user), cfg, now)
    }
    &&& r matches Err(e) ==> e == AppError::AuthError(AuthInnerError::TokenCreation)
}

/// What a login answers at `now`: `WrongCredentials` where the password
/// opens none of the accounts, and elsewhere what the first account that it
/// opens is owed.
pub open spec fn login_answer(
    r: AppResult<LoginResponse>,
    users: Seq<Account>,
    password: Seq<u8>,
    cfg: AppConfig,
    now: int,
) -> bool {
    &&& no_match(users, password) ==> r == Err::<LoginResponse, AppError>(
        AppError::AuthError(AuthInnerError::WrongCredentials),
    )
    &&& forall|index: int| #[trigger]
        is_first_match(users, password, index) ==> logged_in(r, users[index], cfg, now)
}

/// A login at `now`. `users` are the accounts that the store holds under
/// the name or address given.
///
/// The first account whose stored hash accepts `password` is logged in and
/// gets both tokens. Where there is none, and where there are no accounts
/// at all, the answer is `WrongCredentials`.
pub fn login_at(users: &Vec<Account>, password: &str, cfg: &AppConfig, now: i64) -> (r: AppResult<
    LoginResponse,
>)
    ensures
        login_answer(r, users@, encode_utf8(password@), *cfg, now as int),
        r == Err::<LoginResponse, AppError>(
            AppError::AuthError(AuthInnerError::WrongCredentials),
        ) <==> no_match(users@, encode_utf8(password@)),
{
    let found = find_account(users, password);
    proof {
        if let Some(index) = found {
            lemma_first_match_is_unique(users@, encode_utf8(password@), index as int);
        }
    }
    login_with_at(users, found, cfg, now)
}

/// A login at the time the clock shows: what [`login_at`] gives at some
/// time from the epoch on.
///
/// The answer is `WrongCredentials` exactly where the password opens none
/// of the accounts. Where it opens one, the only failure is
/// `TokenCreation`, and an answer carries the name, the address and the
/// language of the first account that it opens, with both tokens issued for
/// that account.
pub fn login(users: &Vec<Account>, password: &str, cfg: &AppConfig) -> (r: AppResult<
    LoginResponse,
>)
    ensures
        exists|now: int|
            0 <= now && #[trigger] login_answer(r, users@, encode_utf8(password@), *cfg, now),
        r == Err::<LoginResponse, AppError>(
            AppError::AuthError(AuthInnerError::WrongCredentials),
        ) <==> no_match(users@, encode_utf8(password@)),
        forall|index: int| #[trigger]
            is_first_match(users@, encode_utf8(password@), index) ==> {
                &&& r matches Err(e) ==> e == AppError::AuthError(AuthInnerError::TokenCreation)
                &&& r matches Ok(answer) ==> {
                    &&& answer.name@ == users@[index].name@
                    &&& answer.email@ == users@[index].email@
                    &&& answer.language == users@[index].language
                    &&& exists|now: int|
                        0 <= now && #[trigger] issued_pair(
                            answer.tokens@,
                            subject_of(users@[index]),
                            *cfg,
                            now,
                        )
                }
            },
        r is Ok ==> exists|index: int| #[trigger]
            is_first_match(users@, encode_utf8(password@), index),
        !cfg.secrets_differ() ==> r is Err,
{
    match find_account(users, password) {
        Some(index) => {
            let user = &users[index];
            proof {
                lemma_first_match_is_unique(users@, encode_utf8(password@), index as int);
            }
            let issued = Claims::generate_tokens_for_user(user, cfg);
            let ghost now = choose|now: int|
                0 <= now && #[trigger] issue_answer(issued, subject_of(*user), *cfg, now);
            let r = match issued {
                Ok(tokens) => Ok(
                    LoginResponse {
                        tokens,
                        name: user.name.clone(),
                        email: user.email.clone(),
                        language: user.language,
                    },
                ),
                Err(e) => Err(e),
            };
            proof {
                assert(logged_in(r, users@[index as int], *cfg, now));
                assert(login_answer(r, users@, encode_utf8(password@), *cfg, now));
                if r is Ok {
                    assert(issued_pair(
                        r.unwrap().tokens@,
                        subject_of(users@[index as int]),
                        *cfg,
                        now,
                    ));
                }
            }
            r
        },
        None => {
            let r = Err(AppError::AuthError(AuthInnerError::WrongCredentials));
            proof {
                assert(login_answer(r, users@, encode_utf8(password@), *cfg, 0));
            }
            r
        },
    }
}

/// Whether an address is free for a new account. An address that the store
/// could not answer for counts as taken.
pub open spec fn address_is_free(exists: Option<bool>) -> bool {
    exists == Some(false)
}

/// Decides on a registration, with the hash of the password given.
/// `exists` is the store's answer to whether the address is taken.
pub fn register_with(exists: Option<bool>, body: &RegisterUserRequest, hashed: String) -> (r:
    AppResult<RegisterSchema>)
    ensures
        address_is_free(exists) ==> (r matches Ok(item) && item.name@ == body.name@ && item.email@
            == body.email@ && item.password@ == hashed@),
        !address_is_free(exists) ==> r == Err::<RegisterSchema, AppError>(
            AppError::AuthError(AuthInnerError::UserAlreadyExists),
        ),
{
    let taken = match exists {
        Some(taken) => taken,
        None => true,
    };
    if taken {
        return Err(AppError::AuthError(AuthInnerError::UserAlreadyExists));
    }
    Ok(RegisterSchema { name: body.name.clone(), email: body.email.clone(), password: hashed })
}

/// Decides on a registration and hashes the password. The password is
/// hashed only where the address is free. The hash that is handed on for
/// storing accepts the password given.
pub fn register(exists: Option<bool>, body: &RegisterUserRequest) -> (r: AppResult<RegisterSchema>)
    ensures
        address_is_free(exists) ==> match r {
            Ok(item) => item.name@ == body.name@ && item.email@ == body.email@ && argon2_accepts(
                item.password@,
                encode_utf8(body.password@),
            ),
            Err(e) => e matches AppError::Anyhow(text) && starts_with(
                text@,
                hashing_failure_prefix(),
            ),
        },
        !address_is_free(exists) ==> r == Err::<RegisterSchema, AppError>(
            AppError::AuthError(AuthInnerError::UserAlreadyExists),
        ),
{
    let taken = match exists {
        Some(taken) => taken,
        None => true,
    };
    if taken {
        return Err(AppError::AuthError(AuthInnerError::UserAlreadyExists));
    }
    let hashed = hash_password(body.password.as_str().as_bytes())?;
    register_with(exists, body, hashed)
}

/// What an account may see of itself. `user` is what the store holds for
/// the address in the caller's token; a token whose account is gone is
/// answered like a bad token.
pub fn get_me(user: Option<&Account>) -> (r: AppResult<UserResponse>)
    ensures
        match user {
            Some(u) => r matches Ok(answer) && answer.email@ == u.email@ && answer.language
                == u.language && answer.status == u.status,
            None => r == Err::<UserResponse, AppError>(
                AppError::AuthError(AuthInnerError::InvalidToken),
            ),
        },
{
    match user {
        Some(u) => Ok(
            UserResponse { email: u.email.clone(), language: u.language, status: u.status },
        ),
        None => Err(AppError::AuthError(AuthInnerError::InvalidToken)),
    }
}

/// There is at most one first match.
pub proof fn lemma_first_match_is_unique(users: Seq<Account>, password: Seq<u8>, index: int)
    requires
        is_first_match(users, password, index),
    ensures
        forall|other: int| #[trigger] is_first_match(users, password, other) ==> other == index,
        !no_match(users, password),
{
    assert forall|other: int| #[trigger] is_first_match(users, password, other) implies other
        == index by {
        if other < index {
            assert(!argon2_accepts(users[other].password@, password));
        } else if index < other {
            assert(!argon2_accepts(users[index].password@, password));
        }
    }
}

} // verus!
