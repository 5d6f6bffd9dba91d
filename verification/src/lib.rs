//! Credential tokens, one-time verification codes and the drain protocol of
//! the message-queue client of an account service.
pub mod account;
pub mod cfg;
pub mod crypto;
pub mod entity;
pub mod error;
pub mod jwt_service;
pub mod mailor;
pub mod mqer;
pub mod redisor;
pub mod text;
pub mod types;
pub mod verification;
pub mod login;
