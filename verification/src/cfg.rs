//! The configuration of the process.
//!
//! It is read once at startup and never changed after. [`ConfigSlot`] keeps
//! that promise: the first configuration put into it stays. It takes none
//! whose two token secrets are the same, since tokens of one kind could then
//! pass for the other.
use vstd::prelude::*;
use vstd::utf8::{encode_utf8, encode_utf8_decode_utf8};

verus! {

/// Where the logs go and how much of them.
#[derive(Clone, Debug)]
pub struct LogConfig {
    pub path: String,
    pub mine_formatting_level: String,
    pub other_formatting_level: String,
    pub mine_file: String,
    pub other_file: String,
    pub database_file: String,
    pub error_file: String,
    pub file_level: String,
    pub mine_target: String,
    pub database_target: String,
}

/// The account that mail is sent from. It holds a password, so it has no
/// `Debug` form, and neither has anything that holds it.
#[derive(Clone)]
pub struct MailConfig {
    pub username: String,
    pub password: String,
    pub host: String,
}

/// The signing secret of one kind of token and the seconds that such a token
/// lives.
#[derive(Clone, Debug)]
pub struct JWTConfig {
    pub secret: String,
    pub secret_expiration: u32,
}

/// Addresses of the collaborators and the two token configurations.
#[derive(Clone, Debug)]
pub struct AppConfig {
    pub env: String,
    pub host: String,
    pub port: usize,
    pub db_url: String,
    pub redis_url: String,
    pub redis_prefix: String,
    pub mq_url: String,
    pub access_token: JWTConfig,
    pub refresh_token: JWTConfig,
}

#[derive(Clone)]
pub struct Config {
    pub log: LogConfig,
    pub app: AppConfig,
    pub mail: MailConfig,
}

impl AppConfig {
    /// Whether access tokens and refresh tokens are signed with different
    /// secrets. Only then is a token of one kind no token of the other.
    pub open spec fn secrets_differ(self) -> bool {
        encode_utf8(self.access_token.secret@) != encode_utf8(self.refresh_token.secret@)
    }

    pub fn has_distinct_secrets(&self) -> (r: bool)
        ensures
            r == self.secrets_differ(),
    {
        proof {
            encode_utf8_decode_utf8(self.access_token.secret@);
            encode_utf8_decode_utf8(self.refresh_token.secret@);
        }
        !(self.access_token.secret == self.refresh_token.secret)
    }
}

/// A place for the configuration of the process: empty at first, filled
/// once, and only with a configuration whose two token secrets differ.
pub struct ConfigSlot {
    value: Option<Config>,
}

impl ConfigSlot {
    #[verifier::type_invariant]
    spec fn holds_distinct_secrets(self) -> bool {
        self.value matches Some(cfg) ==> cfg.app.secrets_differ()
    }

    /// The configuration in the slot, if it has been filled.
    pub closed spec fn loaded(&self) -> Option<Config> {
        self.value
    }

    /// An empty slot.
    pub fn new() -> (r: ConfigSlot)
        ensures
            r.loaded() is None,
    {
        ConfigSlot { value: None }
    }

    /// Fills the slot, and says whether `cfg` is now the configuration. A
    /// slot that is filled already keeps what it has. A configuration whose
    /// two token secrets are the same is refused, and the slot stays empty.
    pub fn init(&mut self, cfg: Config) -> (stored: bool)
        ensures
            stored == (old(self).loaded() is None && cfg.app.secrets_differ()),
            final(self).loaded() == if stored {
                Some(cfg)
            } else {
                old(self).loaded()
            },
    {
        if self.value.is_none() && cfg.app.has_distinct_secrets() {
            self.value = Some(cfg);
            true
        } else {
            false
        }
    }

    pub fn is_loaded(&self) -> (r: bool)
        ensures
            r == self.loaded() is Some,
    {
        self.value.is_some()
    }
}

/// The configuration of the process. The slot must have been filled. Its two
/// token secrets differ.
pub fn config(slot: &ConfigSlot) -> (r: &Config)
    requires
        slot.loaded() is Some,
    ensures
        *r == slot.loaded().unwrap(),
        r.app.secrets_differ(),
{
    proof {
        use_type_invariant(slot);
    }
    match &slot.value {
        Some(cfg) => cfg,
        None => vstd::pervasive::unreached(),
    }
}

} // verus!
