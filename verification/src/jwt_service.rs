//! Credential tokens: issuing, validating, refreshing.
//!
//! A token is a signed string that carries [`Claims`]. There are two kinds,
//! access and refresh, each signed with a secret of its own and living for a
//! time of its own. Signing and opening are the work of the `jsonwebtoken`
//! crate; which claims go into a token, when a token has expired and whose
//! tokens are accepted is decided here.
//!
//! A token carries no kind: what keeps the two kinds apart is that their
//! secrets differ. Under a configuration whose two secrets are the same,
//! nothing is issued and nothing is accepted.
//!
//! Every function that needs the time exists twice: the one whose name ends
//! in `_at` takes the time as an argument and says exactly what it returns,
//! the other reads the clock and calls the first.
use vstd::prelude::*;
use crate::account::Account;
use crate::cfg::AppConfig;
use crate::error::{AppError, AppResult, AuthInnerError};
use crate::text::{starts_with, str_eq};
use crate::types::AccountStatus;

verus! {

/// The two kinds of token.
#[allow(non_camel_case_types)]
#[derive(Clone, Copy, Debug, PartialEq, Eq, Structural)]
pub enum TokenType {
    ACCESS,
    REFRESH,
}

/// What a token says of its subject, and from when until when it holds.
/// Times are seconds since the Unix epoch.
#[derive(Clone, Debug)]
pub struct Claims {
    pub uid: i64,
    pub email: String,
    pub status: AccountStatus,
    pub iat: usize,
    pub exp: usize,
}

/// The subject that tokens are issued for.
#[derive(Clone, Debug)]
pub struct UserInfo {
    pub uid: i64,
    pub email: String,
    pub status: AccountStatus,
}

/// A freshly issued pair of tokens.
#[derive(Clone, Debug)]
pub struct TokenSchema {
    pub refresh_token: String,
    pub access_token: String,
}

#[derive(Clone, Debug)]
pub struct RefreshTokenRequest {
    pub refresh_token: String,
}

/// Claims as they stand inside a token: the status by its name, the times as
/// 64-bit numbers.
#[derive(Clone, Debug)]
pub struct WireClaims {
    pub uid: i64,
    pub email: String,
    pub status: String,
    pub iat: u64,
    pub exp: u64,
}

pub struct ClaimsView {
    pub uid: i64,
    pub email: Seq<char>,
    pub status: AccountStatus,
    pub iat: usize,
    pub exp: usize,
}

pub struct UserInfoView {
    pub uid: i64,
    pub email: Seq<char>,
    pub status: AccountStatus,
}

pub struct TokenSchemaView {
    pub refresh_token: Seq<char>,
    pub access_token: Seq<char>,
}

pub struct WireClaimsView {
    pub uid: i64,
    pub email: Seq<char>,
    pub status: Seq<char>,
    pub iat: u64,
    pub exp: u64,
}

impl View for Claims {
    type V = ClaimsView;

    open spec fn view(&self) -> ClaimsView {
        ClaimsView {
            uid: self.uid,
            email: self.email@,
            status: self.status,
            iat: self.iat,
            exp: self.exp,
        }
    }
}

impl View for UserInfo {
    type V = UserInfoView;

    open spec fn view(&self) -> UserInfoView {
        UserInfoView { uid: self.uid, email: self.email@, status: self.status }
    }
}

impl View for TokenSchema {
    type V = TokenSchemaView;

    open spec fn view(&self) -> TokenSchemaView {
        TokenSchemaView {
            refresh_token: self.refresh_token@,
            access_token: self.access_token@,
        }
    }
}

impl View for WireClaims {
    type V = WireClaimsView;

    open spec fn view(&self) -> WireClaimsView {
        WireClaimsView {
            uid: self.uid,
            email: self.email@,
            status: self.status@,
            iat: self.iat,
            exp: self.exp,
        }
    }
}

/// The token that `jsonwebtoken::encode` makes of claims and a secret, or
/// `None` where it fails.
pub uninterp spec fn jwt_signed(claims: WireClaimsView, secret: Seq<u8>) -> Option<Seq<char>>;

/// The claims that `jsonwebtoken::decode` reads from a token whose signature
/// fits the secret, or `None` where it rejects the token. Expiry plays no
/// part in it.
pub uninterp spec fn jwt_opened(token: Seq<char>, secret: Seq<u8>) -> Option<WireClaimsView>;

impl ClaimsView {
    pub open spec fn to_wire(self) -> WireClaimsView {
        WireClaimsView {
            uid: self.uid,
            email: self.email,
            status: self.status.name_spec(),
            iat: self.iat as u64,
            exp: self.exp as u64,
        }
    }

    /// The claims that a subject gets at `now`, to hold for `window`
    /// seconds; `None` where the clock stands before the epoch or the expiry
    /// does not fit the machine's word.
    pub open spec fn issued(user: UserInfoView, now: int, window: int) -> Option<ClaimsView> {
        if 0 <= now && 0 <= window && now + window <= usize::MAX && now + window <= i64::MAX {
            Some(
                ClaimsView {
                    uid: user.uid,
                    email: user.email,
                    status: user.status,
                    iat: now as usize,
                    exp: (now + window) as usize,
                },
            )
        } else {
            None
        }
    }

    /// Whether the claims speak of this subject.
    pub open spec fn matches_subject(self, user: UserInfoView) -> bool {
        self.uid == user.uid && self.email == user.email && self.status == user.status
    }
}

impl WireClaimsView {
    /// Claims read from a token, if the status has a known name and the
    /// times fit the machine's word.
    pub open spec fn to_claims(self) -> Option<ClaimsView> {
        match AccountStatus::from_name_spec(self.status) {
            Some(status) => if self.iat <= usize::MAX && self.exp <= usize::MAX {
                Some(
                    ClaimsView {
                        uid: self.uid,
                        email: self.email,
                        status,
                        iat: self.iat as usize,
                        exp: self.exp as usize,
                    },
                )
            } else {
                None
            },
            None => None,
        }
    }
}

/// The rule on the account's status. Where an active account is required,
/// only `Active` passes; elsewhere everything passes but `Suspend`.
pub open spec fn status_passes(status: AccountStatus, require_active: bool) -> bool {
    if require_active {
        status == AccountStatus::Active
    } else {
        status != AccountStatus::Suspend
    }
}

/// What validation makes of an opened token at `now`, before the status is
/// looked at. A token that did not open, whose claims are malformed or whose
/// expiry has passed is invalid.
pub open spec fn verify_claims(opened: Option<WireClaimsView>, now: int) -> Result<
    ClaimsView,
    AuthInnerError,
> {
    match opened {
        Some(wire) => match wire.to_claims() {
            Some(claims) => if claims.exp < now {
                Err(AuthInnerError::InvalidToken)
            } else {
                Ok(claims)
            },
            None => Err(AuthInnerError::InvalidToken),
        },
        None => Err(AuthInnerError::InvalidToken),
    }
}

/// What validation makes of an opened token at `now`: the claims, or
/// `InvalidToken` whatever the cause.
pub open spec fn check_claims(opened: Option<WireClaimsView>, now: int, require_active: bool)
    -> Result<ClaimsView, AuthInnerError> {
    match verify_claims(opened, now) {
        Ok(claims) => if status_passes(claims.status, require_active) {
            Ok(claims)
        } else {
            Err(AuthInnerError::InvalidToken)
        },
        Err(e) => Err(e),
    }
}

/// What validating `token` against `secret` at `now` gives.
pub open spec fn validates(token: Seq<char>, secret: Seq<u8>, now: int, require_active: bool)
    -> Result<ClaimsView, AuthInnerError> {
    check_claims(jwt_opened(token, secret), now, require_active)
}

/// What validating `token` as a token of kind `token_type` gives under
/// `cfg` at `now`. Where the two secrets of `cfg` are the same, no token is
/// valid.
pub open spec fn accepts(
    token: Seq<char>,
    cfg: AppConfig,
    token_type: TokenType,
    now: int,
    require_active: bool,
) -> Result<ClaimsView, AuthInnerError> {
    if cfg.secrets_differ() {
        validates(token, secret_of(cfg, token_type), now, require_active)
    } else {
        Err(AuthInnerError::InvalidToken)
    }
}

/// What opening `token` under `secret` and checking its expiry at `now`
/// gives. Where the two kinds are not kept apart, no token is valid.
pub open spec fn opens(token: Seq<char>, secret: Seq<u8>, usable: bool, now: int) -> Result<
    ClaimsView,
    AuthInnerError,
> {
    if usable {
        verify_claims(jwt_opened(token, secret), now)
    } else {
        Err(AuthInnerError::InvalidToken)
    }
}

/// `token` is what signing `claims` with `secret` gives, and it opens to
/// them again.
pub open spec fn token_for(token: Seq<char>, claims: ClaimsView, secret: Seq<u8>) -> bool {
    jwt_signed(claims.to_wire(), secret) == Some(token) && jwt_opened(token, secret) == Some(
        claims.to_wire(),
    )
}

/// The secret that tokens of a kind are signed with: the bytes of the
/// configured text.
pub open spec fn secret_of(cfg: AppConfig, token_type: TokenType) -> Seq<u8> {
    match token_type {
        TokenType::ACCESS => vstd::utf8::encode_utf8(cfg.access_token.secret@),
        TokenType::REFRESH => vstd::utf8::encode_utf8(cfg.refresh_token.secret@),
    }
}

/// The seconds that tokens of a kind live.
pub open spec fn window_of(cfg: AppConfig, token_type: TokenType) -> int {
    match token_type {
        TokenType::ACCESS => cfg.access_token.secret_expiration as int,
        TokenType::REFRESH => cfg.refresh_token.secret_expiration as int,
    }
}

/// A result that carries claims equals a result over their view.
pub open spec fn claims_result_is(
    got: AppResult<Claims>,
    expected: Result<ClaimsView, AuthInnerError>,
) -> bool {
    match expected {
        Ok(claims) => got matches Ok(c) && c@ == claims,
        Err(e) => got == Err::<Claims, AppError>(AppError::AuthError(e)),
    }
}

/// The token was issued for `user` at `now`, to hold for `window` seconds:
/// it is the signed form of the claims issued then.
pub open spec fn issued_token(
    token: Seq<char>,
    user: UserInfoView,
    window: int,
    secret: Seq<u8>,
    now: int,
) -> bool {
    &&& ClaimsView::issued(user, now, window) matches Some(claims)
    &&& token_for(token, claims, secret)
}

/// What issuing one token for `user` answers at `now`: the signed form of
/// the claims issued then, or `TokenCreation` where the two kinds are not
/// kept apart, where there are no claims to issue, or where signing fails.
pub open spec fn token_answer(
    r: AppResult<String>,
    user: UserInfoView,
    window: int,
    secret: Seq<u8>,
    usable: bool,
    now: int,
) -> bool {
    let failed = r == Err::<String, AppError>(AppError::AuthError(AuthInnerError::TokenCreation));
    if !usable {
        failed
    } else {
        match ClaimsView::issued(user, now, window) {
            Some(claims) => match jwt_signed(claims.to_wire(), secret) {
                Some(token) => r matches Ok(t) && t@ == token && token_for(token, claims, secret),
                None => failed,
            },
            None => failed,
        }
    }
}

/// The pair was issued for `user` at `now` under `cfg`: each token is the
/// signed form of the claims of its kind.
pub open spec fn issued_pair(pair: TokenSchemaView, user: UserInfoView, cfg: AppConfig, now: int)
    -> bool {
    &&& ClaimsView::issued(user, now, window_of(cfg, TokenType::ACCESS)) matches Some(access)
    &&& ClaimsView::issued(user, now, window_of(cfg, TokenType::REFRESH)) matches Some(refresh)
    &&& token_for(pair.access_token, access, secret_of(cfg, TokenType::ACCESS))
    &&& token_for(pair.refresh_token, refresh, secret_of(cfg, TokenType::REFRESH))
    &&& cfg.secrets_differ()
}

/// Whether both tokens can be issued for `user` at `now`: the two secrets
/// differ, each kind has claims to issue, and signing them succeeds.
pub open spec fn can_issue(user: UserInfoView, cfg: AppConfig, now: int) -> bool {
    &&& cfg.secrets_differ()
    &&& ClaimsView::issued(user, now, window_of(cfg, TokenType::ACCESS)) matches Some(access)
    &&& ClaimsView::issued(user, now, window_of(cfg, TokenType::REFRESH)) matches Some(refresh)
    &&& jwt_signed(access.to_wire(), secret_of(cfg, TokenType::ACCESS)) is Some
    &&& jwt_signed(refresh.to_wire(), secret_of(cfg, TokenType::REFRESH)) is Some
}

/// Signs claims with `jsonwebtoken::encode`, under the default header
/// (HS256) and `secret` as the HMAC key. The claims go in as a JSON object
/// with the members `uid`, `email`, `status`, `iat` and `exp`.
///
/// Trusted: the result is a function of the claims and the secret alone.
/// A token that comes back opens again, under the same secret, to the same
/// claims: decoding checks the signature by signing the same header and
/// body once more, and the five members are read back as they were written.
#[verifier::external_body]
fn jwt_encode(claims: &WireClaims, secret: &[u8]) -> (r: Option<String>)
    ensures
        match r {
            Some(token) => jwt_signed(claims@, secret@) == Some(token@) && jwt_opened(
                token@,
                secret@,
            ) == Some(claims@),
            None => jwt_signed(claims@, secret@) is None,
        },
{
    let mut body = serde_json::Value::Object(Default::default());
    body["uid"] = claims.uid.into();
    body["email"] = claims.email.as_str().into();
    body["status"] = claims.status.as_str().into();
    body["iat"] = claims.iat.into();
    body["exp"] = claims.exp.into();
    let key = jsonwebtoken::EncodingKey::from_secret(secret);
    jsonwebtoken::encode(&jsonwebtoken::Header::default(), &body, &key).ok()
}

/// Opens a token with `jsonwebtoken::decode`, under `secret` as the HMAC
/// key and the default validation (HS256) with the check of `exp` against
/// the clock switched off, and reads the members `uid`, `email`, `status`,
/// `iat` and `exp` from its body.
///
/// Trusted: the result is a function of the token and the secret alone.
/// Nothing is promised of when a token opens.
#[verifier::external_body]
fn jwt_decode(token: &str, secret: &[u8]) -> (r: Option<WireClaims>)
    ensures
        match r {
            Some(claims) => jwt_opened(token@, secret@) == Some(claims@),
            None => jwt_opened(token@, secret@) is None,
        },
{
    let mut rules = jsonwebtoken::Validation::default();
    rules.validate_exp = false;
    let key = jsonwebtoken::DecodingKey::from_secret(secret);
    let body = jsonwebtoken::decode::<serde_json::Value>(token, &key, &rules).ok()?.claims;
    Some(
        WireClaims {
            uid: body.get("uid")?.as_i64()?,
            email: body.get("email")?.as_str()?.to_owned(),
            status: body.get("status")?.as_str()?.to_owned(),
            iat: body.get("iat")?.as_u64()?,
            exp: body.get("exp")?.as_u64()?,
        },
    )
}

/// Reads the clock with `chrono::Utc::now` and gives the seconds since the
/// Unix epoch.
///
/// Trusted: the result is not negative. `chrono` panics where the system
/// clock stands before the epoch.
#[verifier::external_body]
fn unix_now() -> (now: i64)
    ensures
        0 <= now,
{
    chrono::Utc::now().timestamp()
}

/// What signs and opens the tokens of one kind.
pub trait TokenAuth {
    /// The secret that the tokens are signed with.
    spec fn signing_secret(&self) -> Seq<u8>;

    /// The seconds that a token lives.
    spec fn lifetime(&self) -> int;

    /// Whether the configuration behind it keeps the two kinds of token
    /// apart.
    spec fn keeps_kinds_apart(&self) -> bool;

    /// Issues a token for `credential` at the time the clock shows: the
    /// answer of [`token_answer`] at some time from the epoch on. Every
    /// failure is `TokenCreation`.
    fn generate_token(&self, credential: &UserInfo) -> (r: AppResult<String>)
        ensures
            exists|now: int|
                0 <= now && #[trigger] token_answer(
                    r,
                    credential@,
                    self.lifetime(),
                    self.signing_secret(),
                    self.keeps_kinds_apart(),
                    now,
                ),
            r is Err ==> r == Err::<String, AppError>(
                AppError::AuthError(AuthInnerError::TokenCreation),
            ),
            !self.keeps_kinds_apart() ==> r is Err,
            r matches Ok(token) ==> exists|now: int|
                0 <= now && #[trigger] issued_token(
                    token@,
                    credential@,
                    self.lifetime(),
                    self.signing_secret(),
                    now,
                ),
    ;

    /// Opens `token` and checks its expiry at the time the clock shows. The
    /// status is not looked at. Every failure is `InvalidToken`.
    fn parse_token(&self, token: &str) -> (r: AppResult<Claims>)
        ensures
            exists|now: int|
                0 <= now && claims_result_is(
                    r,
                    #[trigger] opens(
                        token@,
                        self.signing_secret(),
                        self.keeps_kinds_apart(),
                        now,
                    ),
                ),
            r is Err ==> r == Err::<Claims, AppError>(
                AppError::AuthError(AuthInnerError::InvalidToken),
            ),
            r matches Ok(claims) ==> (jwt_opened(token@, self.signing_secret()) matches Some(wire)
                && wire.to_claims() == Some(claims@)),
    ;
}

/// The secret and the lifetime of one kind of token, and whether the
/// configuration they come from keeps the two kinds apart.
pub struct TokenSecretInfo<'a> {
    secret: &'a [u8],
    expiration: i64,
    usable: bool,
}

impl<'a> TokenSecretInfo<'a> {
    #[verifier::type_invariant]
    spec fn window_in_range(self) -> bool {
        0 <= self.expiration <= u32::MAX
    }

    pub closed spec fn secret(&self) -> Seq<u8> {
        self.secret@
    }

    pub closed spec fn window(&self) -> int {
        self.expiration as int
    }

    /// Whether the two secrets of the configuration differ. Where they do
    /// not, nothing is issued and nothing is accepted.
    pub closed spec fn usable(&self) -> bool {
        self.usable
    }

    pub fn new(token_type: TokenType, cfg: &'a AppConfig) -> (r: Self)
        ensures
            r.secret() == secret_of(*cfg, token_type),
            r.window() == window_of(*cfg, token_type),
            r.usable() == cfg.secrets_differ(),
    {
        Self {
            secret: Self::get_secret(token_type, cfg),
            expiration: Self::get_secret_expiration(token_type, cfg),
            usable: cfg.has_distinct_secrets(),
        }
    }

    pub fn get_secret(token_type: TokenType, cfg: &'a AppConfig) -> (r: &'a [u8])
        ensures
            r@ == secret_of(*cfg, token_type),
    {
        match token_type {
            TokenType::ACCESS => cfg.access_token.secret.as_str().as_bytes(),
            TokenType::REFRESH => cfg.refresh_token.secret.as_str().as_bytes(),
        }
    }

    pub fn get_secret_expiration(token_type: TokenType, cfg: &AppConfig) -> (r: i64)
        ensures
            r == window_of(*cfg, token_type),
            0 <= r <= u32::MAX,
    {
        match token_type {
            TokenType::ACCESS => cfg.access_token.secret_expiration as i64,
            TokenType::REFRESH => cfg.refresh_token.secret_expiration as i64,
        }
    }

    /// The claims that `credential` gets at `now`.
    pub fn claims_at(&self, credential: &UserInfo, now: i64) -> (r: Option<Claims>)
        ensures
            match ClaimsView::issued(credential@, now as int, self.window()) {
                Some(claims) => r matches Some(c) && c@ == claims,
                None => r is None,
            },
    {
        proof {
            use_type_invariant(self);
        }
        if now < 0 {
            return None;
        }
        match now.checked_add(self.expiration) {
            Some(exp) => {
                if exp as u64 > usize::MAX as u64 {
                    None
                } else {
                    Some(
                        Claims {
                            uid: credential.uid,
                            email: credential.email.clone(),
                            status: credential.status,
                            iat: now as usize,
                            exp: exp as usize,
                        },
                    )
                }
            },
            None => None,
        }
    }

    /// Issues a token for `credential` at `now`. It fails with
    /// `TokenCreation` where the two kinds are not kept apart, where there
    /// are no claims to issue, or where signing fails.
    pub fn generate_token_at(&self, credential: &UserInfo, now: i64) -> (r: AppResult<String>)
        ensures
            token_answer(
                r,
                credential@,
                self.window(),
                self.secret(),
                self.usable(),
                now as int,
            ),
    {
        if !self.usable {
            return Err(AppError::AuthError(AuthInnerError::TokenCreation));
        }
        match self.claims_at(credential, now) {
            Some(claims) => {
                let wire = claims.to_wire();
                Self::token_from(jwt_encode(&wire, self.secret))
            },
            None => Err(AppError::AuthError(AuthInnerError::TokenCreation)),
        }
    }

    /// What issuing makes of the signer's answer: the token, or
    /// `TokenCreation` where there is none.
    pub fn token_from(signed: Option<String>) -> (r: AppResult<String>)
        ensures
            r == match signed {
                Some(token) => Ok::<String, AppError>(token),
                None => Err::<String, AppError>(
                    AppError::AuthError(AuthInnerError::TokenCreation),
                ),
            },
    {
        match signed {
            Some(token) => Ok(token),
            None => Err(AppError::AuthError(AuthInnerError::TokenCreation)),
        }
    }

    /// Opens `token` and checks its expiry at `now`. The status is not
    /// looked at. Where the two kinds are not kept apart, no token is valid.
    pub fn parse_token_at(&self, token: &str, now: i64) -> (r: AppResult<Claims>)
        ensures
            claims_result_is(r, opens(token@, self.secret(), self.usable(), now as int)),
    {
        if !self.usable {
            return Err(AppError::AuthError(AuthInnerError::InvalidToken));
        }
        Claims::verify(jwt_decode(token, self.secret), now)
    }
}

impl<'a> TokenAuth for TokenSecretInfo<'a> {
    open spec fn signing_secret(&self) -> Seq<u8> {
        self.secret()
    }

    open spec fn lifetime(&self) -> int {
        self.window()
    }

    open spec fn keeps_kinds_apart(&self) -> bool {
        self.usable()
    }

    fn generate_token(&self, credential: &UserInfo) -> (r: AppResult<String>) {
        let now = unix_now();
        let r = self.generate_token_at(credential, now);
        proof {
            assert(token_answer(
                r,
                credential@,
                self.lifetime(),
                self.signing_secret(),
                self.keeps_kinds_apart(),
                now as int,
            ));
            if r is Ok {
                assert(issued_token(
                    r.unwrap()@,
                    credential@,
                    self.lifetime(),
                    self.signing_secret(),
                    now as int,
                ));
            }
        }
        r
    }

    fn parse_token(&self, token: &str) -> (r: AppResult<Claims>) {
        let now = unix_now();
        let r = self.parse_token_at(token, now);
        proof {
            assert(claims_result_is(
                r,
                opens(token@, self.signing_secret(), self.keeps_kinds_apart(), now as int),
            ));
        }
        r
    }
}

impl Claims {
    /// The claims as they go into a token.
    pub fn to_wire(&self) -> (r: WireClaims)
        ensures
            r@ == self@.to_wire(),
    {
        WireClaims {
            uid: self.uid,
            email: self.email.clone(),
            status: self.status.name().to_owned(),
            iat: self.iat as u64,
            exp: self.exp as u64,
        }
    }

    /// The claims that came out of a token, if they are well formed.
    pub fn from_wire(wire: WireClaims) -> (r: Option<Claims>)
        ensures
            match wire@.to_claims() {
                Some(claims) => r matches Some(c) && c@ == claims,
                None => r is None,
            },
    {
        match AccountStatus::from_name(wire.status.as_str()) {
            Some(status) => {
                if wire.iat > usize::MAX as u64 || wire.exp > usize::MAX as u64 {
                    None
                } else {
                    Some(
                        Claims {
                            uid: wire.uid,
                            email: wire.email,
                            status,
                            iat: wire.iat as usize,
                            exp: wire.exp as usize,
                        },
                    )
                }
            },
            None => None,
        }
    }

    /// What validation makes of an opened token at `now`, before the status
    /// is looked at.
    pub fn verify(opened: Option<WireClaims>, now: i64) -> (r: AppResult<Claims>)
        ensures
            claims_result_is(
                r,
                verify_claims(
                    match opened {
                        Some(w) => Some(w@),
                        None => None,
                    },
                    now as int,
                ),
            ),
    {
        let invalid = Err(AppError::AuthError(AuthInnerError::InvalidToken));
        match opened {
            Some(wire) => match Claims::from_wire(wire) {
                Some(claims) => {
                    if now >= 0 && (claims.exp as u64) < (now as u64) {
                        invalid
                    } else {
                        Ok(claims)
                    }
                },
                None => invalid,
            },
            None => invalid,
        }
    }

    /// What validation makes of an opened token at `now`. Where
    /// `require_active` holds, only the claims of an active account are
    /// accepted; elsewhere those of every account that is not suspended.
    /// Every failure is `InvalidToken`: the caller cannot tell a bad
    /// signature from an expired token or a refused status.
    pub fn check(opened: Option<WireClaims>, now: i64, require_active: bool) -> (r: AppResult<
        Claims,
    >)
        ensures
            claims_result_is(
                r,
                check_claims(
                    match opened {
                        Some(w) => Some(w@),
                        None => None,
                    },
                    now as int,
                    require_active,
                ),
            ),
    {
        let claims = Claims::verify(opened, now)?;
        if (require_active && claims.status == AccountStatus::Active) || (!require_active
            && claims.status != AccountStatus::Suspend) {
            return Ok(claims);
        }
        Err(AppError::AuthError(AuthInnerError::InvalidToken))
    }

    /// Issues both tokens for `credential` at `now`.
    ///
    /// It succeeds exactly where the two secrets differ, both kinds have
    /// claims to issue and both signings succeed, and fails with
    /// `TokenCreation` otherwise. A pair
    /// that is issued validates: each token, held against the secret of its
    /// kind at any time up to its expiry, gives back claims that speak of
    /// `credential`, under every mode of validation that admits the
    /// subject's status.
    pub fn generate_tokens_at(credential: &UserInfo, cfg: &AppConfig, now: i64) -> (r: AppResult<
        TokenSchema,
    >)
        ensures
            r is Err ==> r == Err::<TokenSchema, AppError>(
                AppError::AuthError(AuthInnerError::TokenCreation),
            ),
            r matches Ok(pair) ==> issued_pair(pair@, credential@, *cfg, now as int),
            r is Ok <==> can_issue(credential@, *cfg, now as int),
            !cfg.secrets_differ() ==> r is Err,
            r matches Ok(pair) ==> forall|at: int, require_active: bool|
                at <= now + window_of(*cfg, TokenType::ACCESS) && status_passes(
                    credential.status,
                    require_active,
                ) ==> (#[trigger] accepts(pair.access_token@, *cfg, TokenType::ACCESS, at,
                    require_active,
                ) matches Ok(claims) && claims.matches_subject(credential@)),
            r matches Ok(pair) ==> forall|at: int, require_active: bool|
                at <= now + window_of(*cfg, TokenType::REFRESH) && status_passes(
                    credential.status,
                    require_active,
                ) ==> (#[trigger] accepts(pair.refresh_token@, *cfg, TokenType::REFRESH, at,
                    require_active,
                ) matches Ok(claims) && claims.matches_subject(credential@)),
    {
        let access_info = TokenSecretInfo::new(TokenType::ACCESS, cfg);
        let refresh_info = TokenSecretInfo::new(TokenType::REFRESH, cfg);

        let access_token = access_info.generate_token_at(credential, now)?;
        let refresh_token = refresh_info.generate_token_at(credential, now)?;

        proof {
            let access = ClaimsView::issued(
                credential@,
                now as int,
                window_of(*cfg, TokenType::ACCESS),
            ).unwrap();
            let refresh = ClaimsView::issued(
                credential@,
                now as int,
                window_of(*cfg, TokenType::REFRESH),
            ).unwrap();
            lemma_wire_round_trip(access);
            lemma_wire_round_trip(refresh);
        }
        Ok(TokenSchema { refresh_token, access_token })
    }

    /// Issues both tokens for `credential` at the time the clock shows:
    /// what [`Claims::generate_tokens_at`] gives at some time from the epoch
    /// on.
    pub fn generate_tokens(credential: &UserInfo, cfg: &AppConfig) -> (r: AppResult<TokenSchema>)
        ensures
            exists|now: int| 0 <= now && #[trigger] issue_answer(r, credential@, *cfg, now),
            r is Err ==> r == Err::<TokenSchema, AppError>(
                AppError::AuthError(AuthInnerError::TokenCreation),
            ),
            !cfg.secrets_differ() ==> r is Err,
            r matches Ok(pair) ==> exists|now: int|
                0 <= now && #[trigger] issued_pair(pair@, credential@, *cfg, now),
    {
        let now = unix_now();
        let r = Claims::generate_tokens_at(credential, cfg, now);
        proof {
            assert(issue_answer(r, credential@, *cfg, now as int));
            if r is Ok {
                assert(issued_pair(r.unwrap()@, credential@, *cfg, now as int));
            }
        }
        r
    }

    /// Validates `token` as a token of kind `token_type` at `now`.
    ///
    /// The token is held against the secret of that kind and no other. It is
    /// accepted where the two secrets differ, it opens, its claims are well
    /// formed, its expiry has not passed and its status passes the rule that
    /// `flag` selects. Every failure is `InvalidToken`.
    pub fn parse_token_at(
        token: &str,
        token_type: TokenType,
        flag: bool,
        cfg: &AppConfig,
        now: i64,
    ) -> (r: AppResult<Claims>)
        ensures
            claims_result_is(r, accepts(token@, *cfg, token_type, now as int, flag)),
            r is Err ==> r == Err::<Claims, AppError>(
                AppError::AuthError(AuthInnerError::InvalidToken),
            ),
            r matches Ok(claims) ==> claims.exp >= now && status_passes(claims.status, flag),
            !cfg.secrets_differ() ==> r is Err,
            jwt_opened(token@, secret_of(*cfg, token_type)) is None ==> r is Err,
    {
        let info = TokenSecretInfo::new(token_type, cfg);
        if !info.usable {
            return Err(AppError::AuthError(AuthInnerError::InvalidToken));
        }
        Claims::check(jwt_decode(token, info.secret), now, flag)
    }

    /// Validates `token` as a token of kind `token_type` at the time the
    /// clock shows: what [`Claims::parse_token_at`] gives at some time from
    /// the epoch on.
    pub fn parse_token(token: &str, token_type: TokenType, flag: bool, cfg: &AppConfig) -> (r:
        AppResult<Claims>)
        ensures
            exists|now: int|
                0 <= now && claims_result_is(
                    r,
                    #[trigger] accepts(token@, *cfg, token_type, now, flag),
                ),
            r is Err ==> r == Err::<Claims, AppError>(
                AppError::AuthError(AuthInnerError::InvalidToken),
            ),
            !cfg.secrets_differ() ==> r is Err,
            jwt_opened(token@, secret_of(*cfg, token_type)) is None ==> r is Err,
            r matches Ok(claims) ==> status_passes(claims.status, flag) && (jwt_opened(
                token@,
                secret_of(*cfg, token_type),
            ) matches Some(wire) && wire.to_claims() == Some(claims@)),
    {
        let now = unix_now();
        let r = Claims::parse_token_at(token, token_type, flag, cfg, now);
        proof {
            assert(claims_result_is(r, accepts(token@, *cfg, token_type, now as int, flag)));
        }
        r
    }

    /// Issues both tokens for an account at `now`.
    pub fn generate_tokens_for_user_at(user: &Account, cfg: &AppConfig, now: i64) -> (r: AppResult<
        TokenSchema,
    >)
        ensures
            r is Err ==> r == Err::<TokenSchema, AppError>(
                AppError::AuthError(AuthInnerError::TokenCreation),
            ),
            r matches Ok(pair) ==> issued_pair(pair@, subject_of(*user), *cfg, now as int),
            r is Ok <==> can_issue(subject_of(*user), *cfg, now as int),
            !cfg.secrets_differ() ==> r is Err,
    {
        let user_info = UserInfo { uid: user.id, email: user.email.clone(), status: user.status };
        Claims::generate_tokens_at(&user_info, cfg, now)
    }

    /// Issues both tokens for an account at the time the clock shows: what
    /// [`Claims::generate_tokens_for_user_at`] gives at some time from the
    /// epoch on.
    pub fn generate_tokens_for_user(user: &Account, cfg: &AppConfig) -> (r: AppResult<TokenSchema>)
        ensures
            exists|now: int| 0 <= now && #[trigger] issue_answer(r, subject_of(*user), *cfg, now),
            r is Err ==> r == Err::<TokenSchema, AppError>(
                AppError::AuthError(AuthInnerError::TokenCreation),
            ),
            !cfg.secrets_differ() ==> r is Err,
            r matches Ok(pair) ==> exists|now: int|
                0 <= now && #[trigger] issued_pair(pair@, subject_of(*user), *cfg, now),
    {
        let now = unix_now();
        let r = Claims::generate_tokens_for_user_at(user, cfg, now);
        proof {
            assert(issue_answer(r, subject_of(*user), *cfg, now as int));
            if r is Ok {
                assert(issued_pair(r.unwrap()@, subject_of(*user), *cfg, now as int));
            }
        }
        r
    }

    /// The first half of a refresh: validates `token` as a refresh token at
    /// `now` and names the account to read from the store.
    pub fn refresh_subject_at(token: &str, cfg: &AppConfig, now: i64) -> (r: AppResult<i64>)
        ensures
            subject_answer(r, token@, *cfg, now as int),
    {
        let claims = Claims::parse_token_at(token, TokenType::REFRESH, false, cfg, now)?;
        Ok(claims.uid)
    }

    /// The first half of a refresh, at the time the clock shows: what
    /// [`Claims::refresh_subject_at`] gives at some time from the epoch on.
    pub fn refresh_subject(token: &str, cfg: &AppConfig) -> (r: AppResult<i64>)
        ensures
            exists|now: int| 0 <= now && #[trigger] subject_answer(r, token@, *cfg, now),
            r is Err ==> r == Err::<i64, AppError>(
                AppError::AuthError(AuthInnerError::InvalidToken),
            ),
            !cfg.secrets_differ() ==> r is Err,
            r matches Ok(uid) ==> (jwt_opened(token@, secret_of(*cfg, TokenType::REFRESH))
                matches Some(wire) && wire.uid == uid),
    {
        let now = unix_now();
        let r = Claims::refresh_subject_at(token, cfg, now);
        proof {
            assert(subject_answer(r, token@, *cfg, now as int));
        }
        r
    }

    /// A refresh at `now`. `user` is what the store holds for the account
    /// that [`Claims::refresh_subject_at`] named, or `None` if it holds
    /// nothing.
    ///
    /// The token is validated as a refresh token first: a failure there is
    /// `InvalidToken`, and under a configuration whose two secrets are the
    /// same every token fails there. Then the account must exist and be the token's own:
    /// else `WrongCredentials`. Then the account as it stands now must not be
    /// suspended: else `InvalidToken`, though the token itself is good. Only
    /// then both tokens are issued anew, from the account as it stands now.
    pub fn refresh_token_at(token: &str, user: Option<&Account>, cfg: &AppConfig, now: i64) -> (r:
        AppResult<TokenSchema>)
        ensures
            match refresh_decision(
                accepts(token@, *cfg, TokenType::REFRESH, now as int, false),
                match user {
                    Some(u) => Some(*u),
                    None => None,
                },
            ) {
                Ok(subject) => {
                    &&& r is Err ==> r == Err::<TokenSchema, AppError>(
                        AppError::AuthError(AuthInnerError::TokenCreation),
                    )
                    &&& r matches Ok(pair) ==> issued_pair(pair@, subject, *cfg, now as int)
                    &&& r is Ok <==> can_issue(subject, *cfg, now as int)
                },
                Err(e) => r == Err::<TokenSchema, AppError>(AppError::AuthError(e)),
            },
            user matches Some(u) && u.status == AccountStatus::Suspend ==> r is Err && r
                != Err::<TokenSchema, AppError>(
                AppError::AuthError(AuthInnerError::TokenCreation),
            ),
            !cfg.secrets_differ() ==> r == Err::<TokenSchema, AppError>(
                AppError::AuthError(AuthInnerError::InvalidToken),
            ),
    {
        let claims = Claims::parse_token_at(token, TokenType::REFRESH, false, cfg, now)?;
        match user {
            Some(account) => {
                if account.id != claims.uid {
                    return Err(AppError::AuthError(AuthInnerError::WrongCredentials));
                }
                if account.status == AccountStatus::Suspend {
                    return Err(AppError::AuthError(AuthInnerError::InvalidToken));
                }
                Claims::generate_tokens_for_user_at(account, cfg, now)
            },
            None => Err(AppError::AuthError(AuthInnerError::WrongCredentials)),
        }
    }

    /// A refresh at the time the clock shows.
    pub fn refresh_token(token: &str, user: Option<&Account>, cfg: &AppConfig) -> (r: AppResult<
        TokenSchema,
    >)
        ensures
            exists|now: int|
                0 <= now && #[trigger] refresh_answer(r, token@, user, *cfg, now),
            never_valid(token@, secret_of(*cfg, TokenType::REFRESH)) ==> r == Err::<
                TokenSchema,
                AppError,
            >(AppError::AuthError(AuthInnerError::InvalidToken)),
            r matches Ok(pair) ==> (user matches Some(u) && u.status != AccountStatus::Suspend
                && exists|now: int|
                0 <= now && #[trigger] issued_pair(pair@, subject_of(*u), *cfg, now)),
            user is None ==> r == Err::<TokenSchema, AppError>(
                AppError::AuthError(AuthInnerError::InvalidToken),
            ) || r == Err::<TokenSchema, AppError>(
                AppError::AuthError(AuthInnerError::WrongCredentials),
            ),
            !cfg.secrets_differ() ==> r == Err::<TokenSchema, AppError>(
                AppError::AuthError(AuthInnerError::InvalidToken),
            ),
    {
        let now = unix_now();
        let r = Claims::refresh_token_at(token, user, cfg, now);
        proof {
            assert(refresh_answer(r, token@, user, *cfg, now as int));
            if r is Ok {
                assert(issued_pair(r.unwrap()@, subject_of(*user.unwrap()), *cfg, now as int));
            }
        }
        r
    }

    /// Validates the access token of an `Authorization` header at `now`. A
    /// request without the header, or with one that is no bearer token, is
    /// answered like a bad token.
    pub fn authorize_at(header: Option<&str>, verified: bool, cfg: &AppConfig, now: i64) -> (r:
        AppResult<Claims>)
        ensures
            claims_result_is(r, authorized(header, verified, *cfg, now as int)),
            !cfg.secrets_differ() ==> r is Err,
    {
        let invalid = Err(AppError::AuthError(AuthInnerError::InvalidToken));
        match header {
            Some(value) => match bearer_token(value) {
                Some(token) => Claims::parse_token_at(token, TokenType::ACCESS, verified, cfg, now),
                None => invalid,
            },
            None => invalid,
        }
    }

    /// Validates the access token of an `Authorization` header at the time
    /// the clock shows: what [`Claims::authorize_at`] gives at some time
    /// from the epoch on. Claims that come back are those that the header's
    /// token opens to under the access secret.
    pub fn authorize(header: Option<&str>, verified: bool, cfg: &AppConfig) -> (r: AppResult<
        Claims,
    >)
        ensures
            exists|now: int|
                0 <= now && claims_result_is(
                    r,
                    #[trigger] authorized(header, verified, *cfg, now),
                ),
            r is Err ==> r == Err::<Claims, AppError>(
                AppError::AuthError(AuthInnerError::InvalidToken),
            ),
            !cfg.secrets_differ() ==> r is Err,
            r matches Ok(claims) ==> status_passes(claims.status, verified) && (header matches Some(
                h,
            ) && bearer_token_spec(h@) matches Some(token) && opens_to(
                token,
                secret_of(*cfg, TokenType::ACCESS),
                claims@,
            )),
    {
        let now = unix_now();
        let r = Claims::authorize_at(header, verified, cfg, now);
        proof {
            assert(claims_result_is(r, authorized(header, verified, *cfg, now as int)));
        }
        r
    }
}

/// The subject that an account is, for the purpose of tokens.
pub open spec fn subject_of(user: Account) -> UserInfoView {
    UserInfoView { uid: user.id, email: user.email@, status: user.status }
}

/// `token` opens under `secret`, and to `claims`.
pub open spec fn opens_to(token: Seq<char>, secret: Seq<u8>, claims: ClaimsView) -> bool {
    jwt_opened(token, secret) matches Some(wire) && wire.to_claims() == Some(claims)
}

/// What issuing both tokens for `user` answers at `now`: the pair, exactly
/// where it can be issued, and `TokenCreation` elsewhere.
pub open spec fn issue_answer(
    r: AppResult<TokenSchema>,
    user: UserInfoView,
    cfg: AppConfig,
    now: int,
) -> bool {
    &&& r is Ok <==> can_issue(user, cfg, now)
    &&& r matches Ok(pair) ==> issued_pair(pair@, user, cfg, now)
    &&& r is Err ==> r == Err::<TokenSchema, AppError>(
        AppError::AuthError(AuthInnerError::TokenCreation),
    )
}

/// What the first half of a refresh answers at `now`: the account that a
/// valid refresh token speaks of, or the error of validation.
pub open spec fn subject_answer(r: AppResult<i64>, token: Seq<char>, cfg: AppConfig, now: int)
    -> bool {
    match accepts(token, cfg, TokenType::REFRESH, now, false) {
        Ok(claims) => r == Ok::<i64, AppError>(claims.uid),
        Err(e) => r == Err::<i64, AppError>(AppError::AuthError(e)),
    }
}

/// What validating the access token of an `Authorization` header gives at
/// `now`. A missing header, or one that is no bearer token, is invalid.
pub open spec fn authorized(header: Option<&str>, verified: bool, cfg: AppConfig, now: int)
    -> Result<ClaimsView, AuthInnerError> {
    match header {
        Some(h) => match bearer_token_spec(h@) {
            Some(token) => accepts(token, cfg, TokenType::ACCESS, now, verified),
            None => Err(AuthInnerError::InvalidToken),
        },
        None => Err(AuthInnerError::InvalidToken),
    }
}

/// What a refresh does once the token has been validated and the store has
/// answered: the subject to issue for, or the error to fail with.
pub open spec fn refresh_decision(
    validated: Result<ClaimsView, AuthInnerError>,
    user: Option<Account>,
) -> Result<UserInfoView, AuthInnerError> {
    match validated {
        Err(e) => Err(e),
        Ok(claims) => match user {
            None => Err(AuthInnerError::WrongCredentials),
            Some(account) => if account.id != claims.uid {
                Err(AuthInnerError::WrongCredentials)
            } else if account.status == AccountStatus::Suspend {
                Err(AuthInnerError::InvalidToken)
            } else {
                Ok(subject_of(account))
            },
        },
    }
}

/// What a refresh answers at `now`: the error that the decision names, or
/// both tokens issued anew for the account as the store holds it, where
/// they can be issued, and `TokenCreation` where they cannot.
pub open spec fn refresh_answer(
    r: AppResult<TokenSchema>,
    token: Seq<char>,
    user: Option<&Account>,
    cfg: AppConfig,
    now: int,
) -> bool {
    match refresh_decision(
        accepts(token, cfg, TokenType::REFRESH, now, false),
        match user {
            Some(u) => Some(*u),
            None => None,
        },
    ) {
        Ok(subject) => {
            &&& r is Ok <==> can_issue(subject, cfg, now)
            &&& r matches Ok(pair) ==> issued_pair(pair@, subject, cfg, now)
            &&& r is Err ==> r == Err::<TokenSchema, AppError>(
                AppError::AuthError(AuthInnerError::TokenCreation),
            )
        },
        Err(e) => r == Err::<TokenSchema, AppError>(AppError::AuthError(e)),
    }
}

/// Whether a token is invalid at every time from the epoch on: it does not
/// open, its claims are malformed, or it speaks of a suspended account.
pub open spec fn never_valid(token: Seq<char>, secret: Seq<u8>) -> bool {
    validates(token, secret, 0, false) is Err
}

/// The word that stands before a token in an `Authorization` header.
pub open spec fn bearer_prefix() -> Seq<char> {
    "Bearer "@
}

/// The token of an `Authorization` header: what follows `Bearer `, if the
/// header begins with it.
pub open spec fn bearer_token_spec(header: Seq<char>) -> Option<Seq<char>> {
    if starts_with(header, bearer_prefix()) {
        Some(header.skip(bearer_prefix().len() as int))
    } else {
        None
    }
}

pub fn bearer_token(header: &str) -> (r: Option<&str>)
    ensures
        match bearer_token_spec(header@) {
            Some(token) => r matches Some(t) && t@ == token,
            None => r is None,
        },
{
    proof {
        reveal_strlit("Bearer ");
    }
    let len = header.unicode_len();
    if len < 7 {
        return None;
    }
    if str_eq(header.substring_char(0, 7), "Bearer ") {
        let token = header.substring_char(7, len);
        assert(token@ =~= header@.skip(7));
        Some(token)
    } else {
        None
    }
}

/// Claims written into a token and read back are the same claims.
pub proof fn lemma_wire_round_trip(claims: ClaimsView)
    ensures
        claims.to_wire().to_claims() == Some(claims),
{
    claims.status.lemma_name_round_trip();
}

/// A token whose expiry has passed is invalid, whatever its status and
/// whatever mode of validation is asked for.
pub proof fn lemma_expired_token_is_invalid(
    wire: WireClaimsView,
    now: int,
    require_active: bool,
)
    requires
        wire.exp < now,
    ensures
        check_claims(Some(wire), now, require_active) == Err::<ClaimsView, AuthInnerError>(
            AuthInnerError::InvalidToken,
        ),
{
}

/// Validation fails in one way only, and what it accepts is neither expired
/// nor suspended. Where an active account is asked for, it is active.
pub proof fn lemma_validation_outcomes(
    opened: Option<WireClaimsView>,
    now: int,
    require_active: bool,
)
    ensures
        match check_claims(opened, now, require_active) {
            Ok(claims) => {
                &&& opened matches Some(wire)
                &&& wire.to_claims() == Some(claims)
                &&& claims.exp >= now
                &&& claims.status != AccountStatus::Suspend
                &&& require_active ==> claims.status == AccountStatus::Active
            },
            Err(e) => e == AuthInnerError::InvalidToken,
        },
{
}

/// Both tokens of a pair that was issued for `user` at `now` are accepted,
/// each as a token of its kind, at every time up to its expiry and in every
/// mode that admits the subject's status; the claims that come back speak of
/// `user`.
pub proof fn lemma_issued_pair_is_accepted(
    pair: TokenSchemaView,
    user: UserInfoView,
    cfg: AppConfig,
    now: int,
    token_type: TokenType,
    at: int,
    require_active: bool,
)
    requires
        issued_pair(pair, user, cfg, now),
        at <= now + window_of(cfg, token_type),
        status_passes(user.status, require_active),
    ensures
        accepts(
            match token_type {
                TokenType::ACCESS => pair.access_token,
                TokenType::REFRESH => pair.refresh_token,
            },
            cfg,
            token_type,
            at,
            require_active,
        ) matches Ok(claims) && claims.matches_subject(user) && claims.iat == now && claims.exp
            == now + window_of(cfg, token_type),
{
    lemma_issued_claims_validate(user, now, window_of(cfg, token_type), at, require_active);
}

/// A token that does not open under the secret of a kind is invalid as a
/// token of that kind, at any time and in either mode. Whether a token
/// opens under a secret other than the one it was signed with is the
/// signature check's answer.
pub proof fn lemma_unopened_token_is_invalid(
    token: Seq<char>,
    cfg: AppConfig,
    token_type: TokenType,
    now: int,
    require_active: bool,
)
    requires
        jwt_opened(token, secret_of(cfg, token_type)) is None,
    ensures
        accepts(token, cfg, token_type, now, require_active) == Err::<ClaimsView, AuthInnerError>(
            AuthInnerError::InvalidToken,
        ),
{
}

/// Under a configuration whose two secrets are the same, no token is
/// accepted as a token of either kind, at any time and in either mode, and
/// nothing can be issued.
pub proof fn lemma_shared_secret_is_refused(
    cfg: AppConfig,
    token: Seq<char>,
    token_type: TokenType,
    user: UserInfoView,
    now: int,
    require_active: bool,
)
    requires
        secret_of(cfg, TokenType::ACCESS) == secret_of(cfg, TokenType::REFRESH),
    ensures
        accepts(token, cfg, token_type, now, require_active) == Err::<ClaimsView, AuthInnerError>(
            AuthInnerError::InvalidToken,
        ),
        !can_issue(user, cfg, now),
{
}

/// Claims that are issued at `now` pass validation at every time up to their
/// expiry, under every mode that admits the subject's status, and speak of
/// the subject they were issued for.
pub proof fn lemma_issued_claims_validate(
    user: UserInfoView,
    now: int,
    window: int,
    at: int,
    require_active: bool,
)
    requires
        ClaimsView::issued(user, now, window) is Some,
        at <= now + window,
        status_passes(user.status, require_active),
    ensures
        ({
            let claims = ClaimsView::issued(user, now, window).unwrap();
            check_claims(Some(claims.to_wire()), at, require_active) == Ok::<
                ClaimsView,
                AuthInnerError,
            >(claims) && claims.matches_subject(user)
        }),
{
    lemma_wire_round_trip(ClaimsView::issued(user, now, window).unwrap());
}

} // verus!
