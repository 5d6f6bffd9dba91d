//! Accounts as the service reads them from the store, and what it writes
//! back.
use vstd::prelude::*;
use crate::types::{AccountStatus, Language};

verus! {

/// One row of the account store. `password` is the stored hash.
#[derive(Clone, Debug)]
pub struct Account {
    pub id: i64,
    pub name: String,
    pub email: String,
    pub password: String,
    pub status: AccountStatus,
    pub language: Language,
}

#[derive(Clone, Debug)]
pub struct LoginUserSchema {
    pub email_or_name: String,
    pub password: String,
}

/// A new password hash for an account.
#[derive(Clone, Debug)]
pub struct ResetPasswordSchema {
    pub uid: i64,
    pub password: String,
}

/// A new account. `password` is the hash to store.
#[derive(Clone, Debug)]
pub struct RegisterSchema {
    pub name: String,
    pub email: String,
    pub password: String,
}

} // verus!
