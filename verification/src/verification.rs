//! One-time verification codes for activating an account and for resetting
//! a password.
//!
//! A code is a short random text that the cache holds under a key made of
//! the account's id and the purpose, for a time that depends on the purpose.
//! There is never more than one code for an account and a purpose: a new one
//! is refused while an old one lives. A code is used up by the first
//! submission that matches it. A submission that finds no code is refused
//! like one that finds another code: without a code that matches, neither
//! flow goes on.
//!
//! Delivery of a code is best effort: where its mail cannot be handed to the
//! queue, the failure goes to the log and the request is answered as if the
//! mail had gone out.
//!
//! The cache, the account store and the queue are the caller's. Each
//! function here takes what the caller read and answers with what the caller
//! is to write.
use vstd::prelude::*;
use crate::account::{Account, ResetPasswordSchema};
use crate::cfg::{AppConfig, MailConfig};
use crate::crypto::{argon2_accepts, hash_password, hashing_failure_prefix, random_words};
use crate::entity::CodeType;
use crate::error::{ApiInnerError, AppError, AppResult, AuthInnerError};
use crate::jwt_service::{
    issue_answer, issued_pair, subject_of, Claims, ClaimsView, TokenSchema,
};
use crate::mailor::{Email, EmailView};
use crate::redisor::CacheModel;
use crate::text::{
    i64_text, int_text, is_alphanumeric, join2, join3, lemma_int_text_chars,
    lemma_int_text_is_injective, starts_with, str_eq,
};
use crate::types::AccountStatus;

verus! {

/// Characters in a code.
pub const CODE_LENGTH: usize = 6;

/// Seconds that a code for activating an account lives.
pub const ACTIVE_ACCOUNT_TTL: u64 = 300;

/// Seconds that a code for resetting a password lives.
pub const RESET_PASSWORD_TTL: u64 = 60;

impl CodeType {
    /// Seconds that a code for this purpose lives.
    pub open spec fn ttl_spec(self) -> u64 {
        match self {
            CodeType::ActiveAccount => ACTIVE_ACCOUNT_TTL,
            CodeType::ResetPassword => RESET_PASSWORD_TTL,
        }
    }

    /// The part of the cache key that names the purpose.
    pub open spec fn key_suffix_spec(self) -> Seq<char> {
        match self {
            CodeType::ActiveAccount => "activate"@,
            CodeType::ResetPassword => "reset-password"@,
        }
    }

    /// The subject of the mail that carries a code.
    pub open spec fn mail_subject_spec(self) -> Seq<char> {
        match self {
            CodeType::ActiveAccount => "Active your account"@,
            CodeType::ResetPassword => "Reset Password"@,
        }
    }

    /// The words that stand before the code in the mail.
    pub open spec fn mail_body_prefix(self) -> Seq<char> {
        match self {
            CodeType::ActiveAccount => "Active Code: "@,
            CodeType::ResetPassword => "ResetPassword Code: "@,
        }
    }

    /// Whether codes for this purpose are for inactive accounts only.
    pub open spec fn needs_inactive(self) -> bool {
        self == CodeType::ActiveAccount
    }

    pub fn ttl(self) -> (r: u64)
        ensures
            r == self.ttl_spec(),
    {
        match self {
            CodeType::ActiveAccount => ACTIVE_ACCOUNT_TTL,
            CodeType::ResetPassword => RESET_PASSWORD_TTL,
        }
    }

    pub fn key_suffix(self) -> (r: &'static str)
        ensures
            r@ == self.key_suffix_spec(),
    {
        match self {
            CodeType::ActiveAccount => "activate",
            CodeType::ResetPassword => "reset-password",
        }
    }

    pub fn mail_subject(self) -> (r: &'static str)
        ensures
            r@ == self.mail_subject_spec(),
    {
        match self {
            CodeType::ActiveAccount => "Active your account",
            CodeType::ResetPassword => "Reset Password",
        }
    }

    /// The text of the mail that carries `code`.
    pub fn mail_body(self, code: &str) -> (r: String)
        ensures
            r@ == self.mail_body_prefix() + code@,
    {
        match self {
            CodeType::ActiveAccount => join2("Active Code: ", code),
            CodeType::ResetPassword => join2("ResetPassword Code: ", code),
        }
    }
}

/// The cache key of an account's code for a purpose: the id in decimal, a
/// colon, the name of the purpose.
pub open spec fn code_key_spec(uid: int, purpose: CodeType) -> Seq<char> {
    int_text(uid) + ":"@ + purpose.key_suffix_spec()
}

pub fn code_key(uid: i64, purpose: CodeType) -> (r: String)
    ensures
        r@ == code_key_spec(uid as int, purpose),
{
    let id = i64_text(uid);
    join3(id.as_str(), ":", purpose.key_suffix())
}

/// Whether a new code may be issued. An account that is not inactive cannot
/// ask for an activation code. Nobody can ask for a code while the last one
/// for the same purpose lives.
pub open spec fn request_decision(status: AccountStatus, purpose: CodeType, code_lives: bool)
    -> Result<(), AppError> {
    if purpose.needs_inactive() && status != AccountStatus::Inactive {
        Err(AppError::AuthError(AuthInnerError::UserAlreadyActivated))
    } else if code_lives {
        Err(AppError::ApiError(ApiInnerError::CodeIntervalRejection))
    } else {
        Ok(())
    }
}

/// Whether a submitted code is accepted. An account that is not inactive
/// cannot be activated. A code is accepted where the cache holds one and it
/// is the one submitted; a wrong code and a missing code are both
/// `WrongCode`.
pub open spec fn verify_decision(
    status: AccountStatus,
    purpose: CodeType,
    stored: Option<Seq<char>>,
    submitted: Seq<char>,
) -> Result<(), AuthInnerError> {
    if purpose.needs_inactive() && status != AccountStatus::Inactive {
        Err(AuthInnerError::UserAlreadyActivated)
    } else if stored == Some(submitted) {
        Ok(())
    } else {
        Err(AuthInnerError::WrongCode)
    }
}

/// What to do for a code that was granted: set `code` under `key` in the
/// cache, to live `ttl` seconds, and hand `mail` to the queue.
#[derive(Clone)]
pub struct CodeGrant {
    pub key: String,
    pub code: String,
    pub ttl: u64,
    pub mail: Email,
}

pub struct CodeGrantView {
    pub key: Seq<char>,
    pub code: Seq<char>,
    pub ttl: u64,
    pub mail: EmailView,
}

impl View for CodeGrant {
    type V = CodeGrantView;

    open spec fn view(&self) -> CodeGrantView {
        CodeGrantView { key: self.key@, code: self.code@, ttl: self.ttl, mail: self.mail@ }
    }
}

/// The grant of `code` to the account of `claims`.
pub open spec fn grant_spec(
    claims: ClaimsView,
    purpose: CodeType,
    code: Seq<char>,
    mail: MailConfig,
) -> CodeGrantView {
    CodeGrantView {
        key: code_key_spec(claims.uid as int, purpose),
        code,
        ttl: purpose.ttl_spec(),
        mail: EmailView {
            to: claims.email,
            subject: purpose.mail_subject_spec(),
            body: purpose.mail_body_prefix() + code,
            config: mail@,
        },
    }
}

/// Whether a text has the shape of a code: `CODE_LENGTH` ASCII letters and
/// digits.
pub open spec fn is_code(text: Seq<char>) -> bool {
    text.len() == CODE_LENGTH && forall|i: int|
        0 <= i < text.len() ==> is_alphanumeric(#[trigger] text[i])
}

/// Decides on a request for a code, with the code to grant given.
///
/// `stored` is what the cache holds under the key of [`code_key`]. The
/// request is refused with `UserAlreadyActivated` where an activation code
/// is asked for an account that is not inactive, and else with
/// `CodeIntervalRejection` where the cache still holds a code. Otherwise
/// `code` is granted.
pub fn request_code_with(
    claims: &Claims,
    purpose: CodeType,
    stored: Option<&str>,
    code: String,
    mail: &MailConfig,
) -> (r: AppResult<CodeGrant>)
    ensures
        match request_decision(claims.status, purpose, stored is Some) {
            Ok(_) => r matches Ok(grant) && grant@ == grant_spec(claims@, purpose, code@, *mail),
            Err(e) => r == Err::<CodeGrant, AppError>(e),
        },
{
    let needs_inactive = match purpose {
        CodeType::ActiveAccount => true,
        CodeType::ResetPassword => false,
    };
    if needs_inactive && claims.status != AccountStatus::Inactive {
        return Err(AppError::AuthError(AuthInnerError::UserAlreadyActivated));
    }
    if stored.is_some() {
        return Err(AppError::ApiError(ApiInnerError::CodeIntervalRejection));
    }
    let body = purpose.mail_body(code.as_str());
    let email = Email::new(claims.email.as_str(), purpose.mail_subject(), body.as_str(), mail);
    Ok(CodeGrant { key: code_key(claims.uid, purpose), code, ttl: purpose.ttl(), mail: email })
}

/// Decides on a request for a code and draws the code to grant.
///
/// The request is refused as [`request_code_with`] refuses it. A grant
/// carries a fresh random code of `CODE_LENGTH` letters and digits.
pub fn request_code(claims: &Claims, purpose: CodeType, stored: Option<&str>, mail: &MailConfig)
    -> (r: AppResult<CodeGrant>)
    ensures
        match request_decision(claims.status, purpose, stored is Some) {
            Ok(_) => r matches Ok(grant) && is_code(grant.code@) && grant@ == grant_spec(
                claims@,
                purpose,
                grant.code@,
                *mail,
            ),
            Err(e) => r == Err::<CodeGrant, AppError>(e),
        },
{
    request_code_with(claims, purpose, stored, random_words(CODE_LENGTH), mail)
}

/// What stands in the log before the reason why a mail did not reach the
/// queue.
pub open spec fn publish_failure_prefix() -> Seq<char> {
    "Error occurred while sending email: "@
}

/// The line for the log after an attempt to hand a mail to the queue: none
/// where it went out, the reason behind a fixed prefix where it did not.
pub open spec fn publish_log(published: Result<(), String>) -> Option<Seq<char>> {
    match published {
        Ok(_) => None,
        Err(reason) => Some(publish_failure_prefix() + reason@),
    }
}

/// Decides what a request for a code answers once its code is in the cache
/// and its mail was handed to the queue. `published` is what came of that
/// attempt, a failure with its reason as text.
///
/// The request is answered with success either way: a mail that did not
/// reach the queue is dropped, and the code stays in the cache. The second
/// part of the answer is the line to write to the log, where there is one.
pub fn after_publish(published: Result<(), String>) -> (r: (AppResult<()>, Option<String>))
    ensures
        r.0 == Ok::<(), AppError>(()),
        match publish_log(published) {
            Some(line) => r.1 matches Some(text) && text@ == line,
            None => r.1 is None,
        },
{
    match published {
        Ok(_) => (Ok(()), None),
        Err(reason) => (
            Ok(()),
            Some(join2("Error occurred while sending email: ", reason.as_str())),
        ),
    }
}

/// Decides on a submitted code.
///
/// `stored` is what the cache holds under the key of [`code_key`]. The
/// answer to an accepted code is that key: the caller deletes it, and the
/// code is used up.
pub fn verify_code(claims: &Claims, purpose: CodeType, stored: Option<&str>, submitted: &str)
    -> (r: AppResult<String>)
    ensures
        match verify_decision(
            claims.status,
            purpose,
            match stored {
                Some(s) => Some(s@),
                None => None,
            },
            submitted@,
        ) {
            Ok(_) => r matches Ok(key) && key@ == code_key_spec(claims.uid as int, purpose),
            Err(e) => r == Err::<String, AppError>(AppError::AuthError(e)),
        },
{
    let needs_inactive = match purpose {
        CodeType::ActiveAccount => true,
        CodeType::ResetPassword => false,
    };
    if needs_inactive && claims.status != AccountStatus::Inactive {
        return Err(AppError::AuthError(AuthInnerError::UserAlreadyActivated));
    }
    match stored {
        Some(code) => {
            if str_eq(code, submitted) {
                Ok(code_key(claims.uid, purpose))
            } else {
                Err(AppError::AuthError(AuthInnerError::WrongCode))
            }
        },
        None => Err(AppError::AuthError(AuthInnerError::WrongCode)),
    }
}

/// What an activation does once the code is used up and the store has
/// answered: the account to issue tokens for, or `WrongCredentials` where
/// the store holds no such account.
pub open spec fn activation_decision(claims: ClaimsView, user: Option<Account>) -> Result<
    Account,
    AuthInnerError,
> {
    match user {
        Some(account) => if account.id == claims.uid {
            Ok(account)
        } else {
            Err(AuthInnerError::WrongCredentials)
        },
        None => Err(AuthInnerError::WrongCredentials),
    }
}

/// What the last step of an activation answers at `now`: the error that
/// the decision names, or both tokens for the account as the store holds
/// it, exactly where they can be issued, and `TokenCreation` elsewhere.
pub open spec fn activation_answer(
    r: AppResult<TokenSchema>,
    claims: ClaimsView,
    user: Option<&Account>,
    cfg: AppConfig,
    now: int,
) -> bool {
    match activation_decision(
        claims,
        match user {
            Some(u) => Some(*u),
            None => None,
        },
    ) {
        Ok(account) => issue_answer(r, subject_of(account), cfg, now),
        Err(e) => r == Err::<TokenSchema, AppError>(AppError::AuthError(e)),
    }
}

/// The last step of an activation, at `now`: issues both tokens for the
/// account as the store holds it.
///
/// `user` is what the store holds for the id in `claims`. Where it holds
/// nothing, or another account, the answer is `WrongCredentials`.
pub fn complete_activation_at(
    claims: &Claims,
    user: Option<&Account>,
    cfg: &AppConfig,
    now: i64,
) -> (r: AppResult<TokenSchema>)
    ensures
        activation_answer(r, claims@, user, *cfg, now as int),
        r == Err::<TokenSchema, AppError>(
            AppError::AuthError(AuthInnerError::WrongCredentials),
        ) <==> (user matches Some(u) ==> u.id != claims.uid),
{
    match user {
        Some(account) => {
            if account.id != claims.uid {
                return Err(AppError::AuthError(AuthInnerError::WrongCredentials));
            }
            Claims::generate_tokens_for_user_at(account, cfg, now)
        },
        None => Err(AppError::AuthError(AuthInnerError::WrongCredentials)),
    }
}

/// The last step of an activation, at the time the clock shows: what
/// [`complete_activation_at`] gives at some time from the epoch on.
///
/// The answer is `WrongCredentials` exactly where the store holds nothing
/// for the id in `claims`, or another account. Elsewhere the only failure
/// is `TokenCreation`, and a pair that comes back was issued for the
/// account as the store holds it.
pub fn complete_activation(claims: &Claims, user: Option<&Account>, cfg: &AppConfig) -> (r:
    AppResult<TokenSchema>)
    ensures
        exists|now: int| 0 <= now && #[trigger] activation_answer(r, claims@, user, *cfg, now),
        r == Err::<TokenSchema, AppError>(
            AppError::AuthError(AuthInnerError::WrongCredentials),
        ) <==> (user matches Some(u) ==> u.id != claims.uid),
        (user matches Some(u) && u.id == claims.uid) ==> (r is Err ==> r == Err::<
            TokenSchema,
            AppError,
        >(AppError::AuthError(AuthInnerError::TokenCreation))),
        r matches Ok(pair) ==> (user matches Some(u) && u.id == claims.uid && exists|now: int|
            0 <= now && #[trigger] issued_pair(pair@, subject_of(*u), *cfg, now)),
        !cfg.secrets_differ() ==> r is Err,
{
    match user {
        Some(account) => {
            if account.id != claims.uid {
                let r = Err(AppError::AuthError(AuthInnerError::WrongCredentials));
                proof {
                    assert(activation_answer(r, claims@, user, *cfg, 0));
                }
                return r;
            }
            let r = Claims::generate_tokens_for_user(account, cfg);
            proof {
                let now = choose|now: int|
                    0 <= now && #[trigger] issue_answer(r, subject_of(*account), *cfg, now);
                assert(activation_answer(r, claims@, user, *cfg, now));
            }
            r
        },
        None => {
            let r = Err(AppError::AuthError(AuthInnerError::WrongCredentials));
            proof {
                assert(activation_answer(r, claims@, user, *cfg, 0));
            }
            r
        },
    }
}

/// Decides on a password reset, with the hash of the new password given.
///
/// A code that is accepted as [`verify_code`] accepts it gives the write
/// to the account store: the new hash for the account of `claims`. The
/// caller then deletes the code.
pub fn change_password_with(
    claims: &Claims,
    stored: Option<&str>,
    submitted: &str,
    hashed: String,
) -> (r: AppResult<ResetPasswordSchema>)
    ensures
        match verify_decision(
            claims.status,
            CodeType::ResetPassword,
            match stored {
                Some(s) => Some(s@),
                None => None,
            },
            submitted@,
        ) {
            Ok(_) => r matches Ok(item) && item.uid == claims.uid && item.password@ == hashed@,
            Err(e) => r == Err::<ResetPasswordSchema, AppError>(AppError::AuthError(e)),
        },
{
    match verify_code(claims, CodeType::ResetPassword, stored, submitted) {
        Ok(_) => Ok(ResetPasswordSchema { uid: claims.uid, password: hashed }),
        Err(e) => Err(e),
    }
}

/// Decides on a password reset and hashes the new password. The password is
/// hashed only once the code is accepted. The write that comes back is for
/// the account of `claims`, and its hash accepts the new password.
pub fn change_password(claims: &Claims, stored: Option<&str>, submitted: &str, password: &[u8])
    -> (r: AppResult<ResetPasswordSchema>)
    ensures
        match verify_decision(
            claims.status,
            CodeType::ResetPassword,
            match stored {
                Some(s) => Some(s@),
                None => None,
            },
            submitted@,
        ) {
            Ok(_) => match r {
                Ok(item) => item.uid == claims.uid && argon2_accepts(item.password@, password@),
                Err(e) => e matches AppError::Anyhow(text) && starts_with(
                    text@,
                    hashing_failure_prefix(),
                ),
            },
            Err(e) => r == Err::<ResetPasswordSchema, AppError>(AppError::AuthError(e)),
        },
{
    match verify_code(claims, CodeType::ResetPassword, stored, submitted) {
        Ok(_) => {
            let hashed = hash_password(password)?;
            Ok(ResetPasswordSchema { uid: claims.uid, password: hashed })
        },
        Err(e) => Err(e),
    }
}

/// A request for a code, carried out on the cache at `now`: the cache is
/// asked, and a granted code is set.
pub open spec fn request_flow(
    cache: CacheModel,
    claims: ClaimsView,
    purpose: CodeType,
    code: Seq<char>,
    now: int,
) -> (CacheModel, Result<(), AppError>) {
    let key = code_key_spec(claims.uid as int, purpose);
    match request_decision(claims.status, purpose, cache.get(key, now) is Some) {
        Ok(_) => (cache.set_ex(key, code, purpose.ttl_spec() as int, now), Ok(())),
        Err(e) => (cache, Err(e)),
    }
}

/// A submission of a code, carried out on the cache at `now`: the cache is
/// asked, and an accepted code is deleted.
pub open spec fn verify_flow(
    cache: CacheModel,
    claims: ClaimsView,
    purpose: CodeType,
    submitted: Seq<char>,
    now: int,
) -> (CacheModel, Result<(), AuthInnerError>) {
    let key = code_key_spec(claims.uid as int, purpose);
    match verify_decision(claims.status, purpose, cache.get(key, now), submitted) {
        Ok(_) => (cache.del(key), Ok(())),
        Err(e) => (cache, Err(e)),
    }
}

/// Two accounts, or two purposes, never share a key: a key names one account
/// and one purpose.
pub proof fn lemma_code_keys_are_distinct(
    uid: int,
    purpose: CodeType,
    other_uid: int,
    other_purpose: CodeType,
)
    requires
        code_key_spec(uid, purpose) == code_key_spec(other_uid, other_purpose),
    ensures
        uid == other_uid,
        purpose == other_purpose,
{
    reveal_strlit(":");
    reveal_strlit("activate");
    reveal_strlit("reset-password");
    let id = int_text(uid);
    let other_id = int_text(other_uid);
    let key = code_key_spec(uid, purpose);
    let other_key = code_key_spec(other_uid, other_purpose);
    lemma_int_text_chars(uid);
    lemma_int_text_chars(other_uid);
    assert(key[id.len() as int] == ':');
    assert(other_key[other_id.len() as int] == ':');
    if id.len() < other_id.len() {
        assert(other_key[id.len() as int] == other_id[id.len() as int]);
    } else if other_id.len() < id.len() {
        assert(key[other_id.len() as int] == id[other_id.len() as int]);
    }
    assert(id.len() == other_id.len());
    assert(key.subrange(0, id.len() as int) =~= id);
    assert(other_key.subrange(0, id.len() as int) =~= other_id);
    lemma_int_text_is_injective(uid, other_uid);
    assert(key.len() == id.len() + 1 + purpose.key_suffix_spec().len());
    assert(other_key.len() == id.len() + 1 + other_purpose.key_suffix_spec().len());
    assert("activate"@.len() == 8);
    assert("reset-password"@.len() == 14);
}

/// A request or a submission for one account and purpose leaves the codes
/// of every other account and purpose as they were.
pub proof fn lemma_flows_touch_one_key(
    cache: CacheModel,
    claims: ClaimsView,
    purpose: CodeType,
    code: Seq<char>,
    now: int,
    other_uid: int,
    other_purpose: CodeType,
    later: int,
)
    requires
        other_uid != claims.uid || other_purpose != purpose,
    ensures
        request_flow(cache, claims, purpose, code, now).0.get(
            code_key_spec(other_uid, other_purpose),
            later,
        ) == cache.get(code_key_spec(other_uid, other_purpose), later),
        verify_flow(cache, claims, purpose, code, now).0.get(
            code_key_spec(other_uid, other_purpose),
            later,
        ) == cache.get(code_key_spec(other_uid, other_purpose), later),
{
    if code_key_spec(other_uid, other_purpose) == code_key_spec(claims.uid as int, purpose) {
        lemma_code_keys_are_distinct(other_uid, other_purpose, claims.uid as int, purpose);
    }
}

/// A second request for a code, made before the code of the first has
/// expired, is refused with `CodeIntervalRejection`, and the first code
/// stays.
pub proof fn lemma_second_request_is_refused(
    cache: CacheModel,
    claims: ClaimsView,
    purpose: CodeType,
    first_code: Seq<char>,
    second_code: Seq<char>,
    first: int,
    second: int,
)
    requires
        request_flow(cache, claims, purpose, first_code, first).1 is Ok,
        first <= second < first + purpose.ttl_spec(),
    ensures
        ({
            let after_first = request_flow(cache, claims, purpose, first_code, first).0;
            let (after_second, answer) = request_flow(
                after_first,
                claims,
                purpose,
                second_code,
                second,
            );
            &&& answer == Err::<(), AppError>(
                AppError::ApiError(ApiInnerError::CodeIntervalRejection),
            )
            &&& after_second == after_first
            &&& after_first.get(code_key_spec(claims.uid as int, purpose), second) == Some(
                first_code,
            )
        }),
{
}

/// Once the code of a request has expired, the next request is granted.
pub proof fn lemma_request_after_expiry_is_granted(
    cache: CacheModel,
    claims: ClaimsView,
    purpose: CodeType,
    first_code: Seq<char>,
    second_code: Seq<char>,
    first: int,
    second: int,
)
    requires
        request_flow(cache, claims, purpose, first_code, first).1 is Ok,
        second >= first + purpose.ttl_spec(),
    ensures
        request_flow(
            request_flow(cache, claims, purpose, first_code, first).0,
            claims,
            purpose,
            second_code,
            second,
        ).1 is Ok,
{
}

/// A granted code never takes the place of a living one: a request is
/// granted only where the cache holds no code for the account and the
/// purpose, so there is at most one at any time.
pub proof fn lemma_grant_needs_empty_slot(
    cache: CacheModel,
    claims: ClaimsView,
    purpose: CodeType,
    code: Seq<char>,
    now: int,
)
    requires
        request_flow(cache, claims, purpose, code, now).1 is Ok,
    ensures
        cache.get(code_key_spec(claims.uid as int, purpose), now) is None,
        request_flow(cache, claims, purpose, code, now).0.get(
            code_key_spec(claims.uid as int, purpose),
            now,
        ) == Some(code),
{
}

/// A code is good for one submission. The submission of the right code
/// deletes it; the same code submitted again is refused with `WrongCode`.
pub proof fn lemma_code_is_accepted_once(
    cache: CacheModel,
    claims: ClaimsView,
    purpose: CodeType,
    code: Seq<char>,
    first: int,
    second: int,
)
    requires
        cache.get(code_key_spec(claims.uid as int, purpose), first) == Some(code),
        purpose.needs_inactive() ==> claims.status == AccountStatus::Inactive,
    ensures
        ({
            let (after_first, answer) = verify_flow(cache, claims, purpose, code, first);
            &&& answer is Ok
            &&& after_first.get(code_key_spec(claims.uid as int, purpose), second) is None
            &&& verify_flow(after_first, claims, purpose, code, second).1 == Err::<
                (),
                AuthInnerError,
            >(AuthInnerError::WrongCode)
        }),
{
}

/// A wrong code leaves the stored code in place, so that the right one can
/// still be submitted until it expires.
pub proof fn lemma_wrong_code_keeps_the_code(
    cache: CacheModel,
    claims: ClaimsView,
    purpose: CodeType,
    code: Seq<char>,
    wrong: Seq<char>,
    now: int,
)
    requires
        cache.get(code_key_spec(claims.uid as int, purpose), now) == Some(code),
        purpose.needs_inactive() ==> claims.status == AccountStatus::Inactive,
        wrong != code,
    ensures
        verify_flow(cache, claims, purpose, wrong, now) == (
            cache,
            Err::<(), AuthInnerError>(AuthInnerError::WrongCode),
        ),
        verify_flow(cache, claims, purpose, code, now).1 is Ok,
{
}

/// A code that is requested and then submitted within its lifetime is
/// accepted, and the cache holds no code for the account afterwards.
pub proof fn lemma_requested_code_verifies(
    cache: CacheModel,
    claims: ClaimsView,
    purpose: CodeType,
    code: Seq<char>,
    requested: int,
    submitted: int,
    later: int,
)
    requires
        request_flow(cache, claims, purpose, code, requested).1 is Ok,
        requested <= submitted < requested + purpose.ttl_spec(),
    ensures
        ({
            let granted = request_flow(cache, claims, purpose, code, requested).0;
            let (used, answer) = verify_flow(granted, claims, purpose, code, submitted);
            answer is Ok && used.get(code_key_spec(claims.uid as int, purpose), later) is None
        }),
{
}

} // verus!
