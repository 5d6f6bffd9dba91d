//! Bodies of requests and answers.
use vstd::prelude::*;
use crate::account::Account;
use crate::jwt_service::{TokenSchema, TokenSchemaView};
use crate::types::{AccountStatus, Language};

verus! {

/// The answer to a login: the tokens and who logged in.
#[derive(Clone, Debug)]
pub struct LoginResponse {
    pub tokens: TokenSchema,
    pub name: String,
    pub email: String,
    pub language: Language,
}

pub struct LoginResponseView {
    pub tokens: TokenSchemaView,
    pub name: Seq<char>,
    pub email: Seq<char>,
    pub language: Language,
}

impl View for LoginResponse {
    type V = LoginResponseView;

    open spec fn view(&self) -> LoginResponseView {
        LoginResponseView {
            tokens: self.tokens@,
            name: self.name@,
            email: self.email@,
            language: self.language,
        }
    }
}

impl LoginResponse {
    pub fn new(tokens: TokenSchema, user: Account) -> (r: Self)
        ensures
            r@ == (LoginResponseView {
                tokens: tokens@,
                name: user.name@,
                email: user.email@,
                language: user.language,
            }),
    {
        Self { tokens, name: user.name, email: user.email, language: user.language }
    }
}

#[derive(Clone, Debug)]
pub struct TokenResponse {
    pub tokens: TokenSchema,
}

/// What an account may see of itself.
#[derive(Clone, Debug)]
pub struct UserResponse {
    pub email: String,
    pub language: Language,
    pub status: AccountStatus,
}

#[derive(Clone, Debug)]
pub struct RegisterUserRequest {
    pub name: String,
    pub email: String,
    pub password: String,
}

#[derive(Clone, Debug)]
pub struct LoginUserRequest {
    pub email_or_name: String,
    pub password: String,
}

/// What a verification code is for.
#[derive(Clone, Copy, Debug, PartialEq, Eq, Structural)]
pub enum CodeType {
    ActiveAccount,
    ResetPassword,
}

#[derive(Clone, Debug)]
pub struct ActiveAccountRequest {
    pub code: String,
}

#[derive(Clone, Debug)]
pub struct ResetPasswordRequest {
    pub code: String,
    pub password: String,
}

} // verus!
