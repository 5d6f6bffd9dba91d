//! Error kinds of the service and their stable wire mapping.
//!
//! Every error that reaches a client is reported as a pair of an HTTP status
//! and a numeric code. The mapping is part of the public interface: clients
//! branch on the numeric code, so it is fixed here by a specification function
//! and the executable lookup is proved equal to it.
//!
//! Failures of collaborators (store, cache, broker, mail transport) carry the
//! collaborator's own description as text: nothing in the service inspects
//! them further.
use vstd::prelude::*;

verus! {

pub const STATUS_OK: u16 = 200;

pub const STATUS_BAD_REQUEST: u16 = 400;

pub const STATUS_UNAUTHORIZED: u16 = 401;

pub const STATUS_FORBIDDEN: u16 = 403;

pub const STATUS_CONFLICT: u16 = 409;

pub const STATUS_UNPROCESSABLE_ENTITY: u16 = 422;

/// Numeric code shared by every error that has no code of its own.
pub const CODE_UNCLASSIFIED: u32 = 99999;

/// Faults of the credential and token lifecycle.
#[derive(Clone, Copy, Debug, PartialEq, Eq, Structural)]
pub enum AuthInnerError {
    UserAlreadyExists,
    WrongCredentials,
    MissingCredentials,
    TokenCreation,
    InvalidToken,
    WrongCode,
    AccountSuspended,
    InvalidTokenType,
    UserAlreadyActivated,
}

/// Faults of the cache collaborator.
#[derive(Clone, Debug, PartialEq, Eq)]
pub enum RedisorError {
    PoolError(String),
    ExeError(String),
}

/// Faults of the broker collaborator.
#[derive(Clone, Debug, PartialEq, Eq)]
pub enum MqerError {
    PoolError(String),
    ExeError(String),
}

/// Faults of request validation and rate limiting.
#[derive(Clone, Debug, PartialEq, Eq)]
pub enum ApiInnerError {
    ValidationError(String),
    AxumFormRejection(String),
    CodeIntervalRejection,
}

/// Faults raised below the request handlers.
#[derive(Clone, Debug, PartialEq, Eq)]
pub enum AppInnerError {
    DataBaseError(String),
    RedisError(RedisorError),
    MQError(MqerError),
    JsonError(String),
    EmailError(String),
    Unknown(String),
    Anyhow(String),
}

/// Every error a request can end in.
#[derive(Clone, Debug, PartialEq, Eq)]
pub enum AppError {
    Unknown(String),
    Anyhow(String),
    ErrSystem(String),
    InnerError(AppInnerError),
    AuthError(AuthInnerError),
    ApiError(ApiInnerError),
}

pub type InnerResult<T> = Result<T, AppInnerError>;

pub type AppResult<T> = Result<T, AppError>;

impl AuthInnerError {
    /// The numeric code clients see for this fault.
    pub open spec fn code(self) -> u32 {
        match self {
            AuthInnerError::WrongCredentials => 10001,
            AuthInnerError::TokenCreation => 10002,
            AuthInnerError::InvalidToken => 10003,
            AuthInnerError::UserAlreadyExists => 10004,
            AuthInnerError::MissingCredentials => 10005,
            AuthInnerError::WrongCode => 10006,
            AuthInnerError::AccountSuspended => 10007,
            AuthInnerError::InvalidTokenType => 10008,
            AuthInnerError::UserAlreadyActivated => 10009,
        }
    }

    /// The HTTP status clients see for this fault: a clash with existing
    /// state is a conflict, a failure to mint a token is forbidden, and
    /// everything else asks the client to authenticate again.
    pub open spec fn status(self) -> u16 {
        match self {
            AuthInnerError::UserAlreadyExists | AuthInnerError::UserAlreadyActivated => STATUS_CONFLICT,
            AuthInnerError::TokenCreation => STATUS_FORBIDDEN,
            _ => STATUS_UNAUTHORIZED,
        }
    }

    /// The fixed text shown for this fault.
    pub open spec fn message_spec(self) -> Seq<char> {
        match self {
            AuthInnerError::UserAlreadyExists => "UserAlreadyExists"@,
            AuthInnerError::WrongCredentials => "WrongCredentials"@,
            AuthInnerError::MissingCredentials => "MissingCredentials"@,
            AuthInnerError::TokenCreation => "TokenCreation"@,
            AuthInnerError::InvalidToken => "InvalidToken"@,
            AuthInnerError::WrongCode => "WrongCode"@,
            AuthInnerError::AccountSuspended => "AccountSuspended"@,
            AuthInnerError::InvalidTokenType => "InvalidTokenType"@,
            AuthInnerError::UserAlreadyActivated => "UserAlreadyActivated"@,
        }
    }

    pub fn message(&self) -> (r: &'static str)
        ensures
            r@ == self.message_spec(),
    {
        match self {
            AuthInnerError::UserAlreadyExists => "UserAlreadyExists",
            AuthInnerError::WrongCredentials => "WrongCredentials",
            AuthInnerError::MissingCredentials => "MissingCredentials",
            AuthInnerError::TokenCreation => "TokenCreation",
            AuthInnerError::InvalidToken => "InvalidToken",
            AuthInnerError::WrongCode => "WrongCode",
            AuthInnerError::AccountSuspended => "AccountSuspended",
            AuthInnerError::InvalidTokenType => "InvalidTokenType",
            AuthInnerError::UserAlreadyActivated => "UserAlreadyActivated",
        }
    }
}

impl ApiInnerError {
    /// The numeric code clients see for this fault. Both forms of a
    /// malformed request share one code.
    pub open spec fn code(self) -> u32 {
        match self {
            ApiInnerError::ValidationError(_) => 20001,
            ApiInnerError::AxumFormRejection(_) => 20001,
            ApiInnerError::CodeIntervalRejection => 30001,
        }
    }

    /// The HTTP status clients see for this fault. A request for a code that
    /// comes too soon after the last one is answered like a success, so that
    /// the answer tells nothing about timing.
    pub open spec fn status(self) -> u16 {
        match self {
            ApiInnerError::CodeIntervalRejection => STATUS_OK,
            _ => STATUS_UNPROCESSABLE_ENTITY,
        }
    }
}

impl AppError {
    /// The pair of HTTP status and numeric code that stands for an error on
    /// the wire.
    pub open spec fn status_code(self) -> (u16, u32) {
        match self {
            AppError::AuthError(e) => (e.status(), e.code()),
            AppError::ApiError(e) => (e.status(), e.code()),
            _ => (STATUS_BAD_REQUEST, CODE_UNCLASSIFIED),
        }
    }

    /// Looks up the HTTP status and numeric code of an error.
    pub fn select_status_code(app_error: &Self) -> (r: (u16, u32))
        ensures
            r == app_error.status_code(),
    {
        match app_error {
            AppError::AuthError(e) => match e {
                AuthInnerError::WrongCredentials => (STATUS_UNAUTHORIZED, 10001),
                AuthInnerError::TokenCreation => (STATUS_FORBIDDEN, 10002),
                AuthInnerError::InvalidToken => (STATUS_UNAUTHORIZED, 10003),
                AuthInnerError::UserAlreadyExists => (STATUS_CONFLICT, 10004),
                AuthInnerError::MissingCredentials => (STATUS_UNAUTHORIZED, 10005),
                AuthInnerError::WrongCode => (STATUS_UNAUTHORIZED, 10006),
                AuthInnerError::AccountSuspended => (STATUS_UNAUTHORIZED, 10007),
                AuthInnerError::InvalidTokenType => (STATUS_UNAUTHORIZED, 10008),
                AuthInnerError::UserAlreadyActivated => (STATUS_CONFLICT, 10009),
            },
            AppError::ApiError(e) => match e {
                ApiInnerError::ValidationError(_) => (STATUS_UNPROCESSABLE_ENTITY, 20001),
                ApiInnerError::AxumFormRejection(_) => (STATUS_UNPROCESSABLE_ENTITY, 20001),
                ApiInnerError::CodeIntervalRejection => (STATUS_OK, 30001),
            },
            _ => (STATUS_BAD_REQUEST, CODE_UNCLASSIFIED),
        }
    }

    /// The status and code of a response: those of its error, or plain
    /// success where there is none.
    pub open spec fn response_status_spec(err: Option<AppError>) -> (u16, u32) {
        match err {
            Some(e) => e.status_code(),
            None => (STATUS_OK, 0),
        }
    }

    pub fn response_status(err: Option<&AppError>) -> (r: (u16, u32))
        ensures
            r == match err {
                Some(e) => e.status_code(),
                None => (STATUS_OK, 0u32),
            },
    {
        match err {
            Some(e) => AppError::select_status_code(e),
            None => (STATUS_OK, 0),
        }
    }
}

/// Two credential faults never share a numeric code.
pub proof fn lemma_auth_codes_distinct(a: AuthInnerError, b: AuthInnerError)
    ensures
        a.code() == b.code() <==> a == b,
{
}

/// The numeric code tells the three families of errors apart: credential
/// faults lie in 10001..=10009, request faults are 20001 or 30001, and
/// everything else is `CODE_UNCLASSIFIED`.
pub proof fn lemma_code_families(e: AppError)
    ensures
        e is AuthError <==> 10001 <= e.status_code().1 <= 10009,
        e is ApiError <==> (e.status_code().1 == 20001 || e.status_code().1 == 30001),
        !(e is AuthError) && !(e is ApiError) <==> e.status_code().1 == CODE_UNCLASSIFIED,
{
}

/// The only error answered with a success status is the rejection of a code
/// request that comes too soon; every other error is a 4xx.
pub proof fn lemma_only_interval_rejection_is_ok(e: AppError)
    ensures
        e.status_code().0 == STATUS_OK <==> e == AppError::ApiError(
            ApiInnerError::CodeIntervalRejection,
        ),
        e.status_code().0 != STATUS_OK ==> 400 <= e.status_code().0 < 500,
{
}

} // verus!
