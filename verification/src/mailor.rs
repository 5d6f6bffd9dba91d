//! Mail as the service hands it to the queue.
//!
//! Sending is the mail transport's business. Here a message is put
//! together: to whom, under which subject, with which text, and from which
//! account.
use vstd::prelude::*;
use crate::cfg::MailConfig;

verus! {

/// One mail, with the account to send it from.
#[derive(Clone)]
pub struct Email {
    pub to: String,
    pub subject: String,
    pub body: String,
    pub config: MailConfig,
}

pub struct MailConfigView {
    pub username: Seq<char>,
    pub password: Seq<char>,
    pub host: Seq<char>,
}

pub struct EmailView {
    pub to: Seq<char>,
    pub subject: Seq<char>,
    pub body: Seq<char>,
    pub config: MailConfigView,
}

impl View for MailConfig {
    type V = MailConfigView;

    open spec fn view(&self) -> MailConfigView {
        MailConfigView { username: self.username@, password: self.password@, host: self.host@ }
    }
}

impl View for Email {
    type V = EmailView;

    open spec fn view(&self) -> EmailView {
        EmailView {
            to: self.to@,
            subject: self.subject@,
            body: self.body@,
            config: self.config@,
        }
    }
}

impl Email {
    /// A mail to `to`, to be sent from the account that `config` names.
    pub fn new(to: &str, subject: &str, body: &str, config: &MailConfig) -> (r: Self)
        ensures
            r@ == (EmailView { to: to@, subject: subject@, body: body@, config: config@ }),
    {
        Self {
            to: to.to_owned(),
            subject: subject.to_owned(),
            body: body.to_owned(),
            config: MailConfig {
                username: config.username.clone(),
                password: config.password.clone(),
                host: config.host.clone(),
            },
        }
    }
}

} // verus!
