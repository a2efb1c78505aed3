//! The email dispatch client: builds the outbound request for the
//! transactional-email provider, and classifies the provider's answer.
//!
//! The network send itself is outside the library; callers perform the
//! HTTP POST described by an `EmailRequest` and hand the resulting status
//! back to `dispatch_outcome`.

use vstd::prelude::*;
use crate::domain::SubscriberEmail;

verus! {

/// What `url::Url::join` resolves `rel` to against the base URL string,
/// or `None` when the base does not parse or the join fails.
pub uninterp spec fn url_join_of(base: Seq<char>, rel: Seq<char>) -> Option<Seq<char>>;

/// Relies on url's `Url::parse` and `Url::join`: parses the base URL and
/// resolves the relative reference `rel` against it. The result is a pure
/// function of the two strings.
#[verifier::external_body]
fn join_url(base: &str, rel: &str) -> (r: Option<String>)
    ensures
        match r {
            Some(u) => url_join_of(base@, rel@) == Some(u@),
            None => url_join_of(base@, rel@) is None,
        },
{
    match url::Url::parse(base) {
        Ok(u) => match u.join(rel) {
            Ok(j) => Some(String::from(j)),
            Err(_) => None,
        },
        Err(_) => None,
    }
}

/// Why an email client could not be configured.
#[derive(Clone, Copy, Debug, PartialEq, Eq, Structural)]
pub enum EmailClientError {
    InvalidBaseUrl,
}

/// Why an email dispatch failed.
#[derive(Clone, Copy, Debug, PartialEq, Eq, Structural)]
pub enum DispatchError {
    /// The provider answered with a non-success status code.
    ErrorStatus(u16),
    /// The request never completed: transport error or timeout.
    Transport,
}

/// One outbound send request to the provider: a POST of these fields to
/// `url`, authorized by the token header.
pub struct EmailRequest {
    pub url: String,
    pub authorization_token: String,
    pub from: String,
    pub to: String,
    pub subject: String,
    pub html_body: String,
    pub text_body: String,
}

/// What an `EmailRequest` holds, as plain sequences.
#[verifier::ext_equal]
pub struct EmailRequestModel {
    pub url: Seq<char>,
    pub authorization_token: Seq<char>,
    pub from: Seq<char>,
    pub to: Seq<char>,
    pub subject: Seq<char>,
    pub html_body: Seq<char>,
    pub text_body: Seq<char>,
}

impl View for EmailRequest {
    type V = EmailRequestModel;

    open spec fn view(&self) -> EmailRequestModel {
        EmailRequestModel {
            url: self.url@,
            authorization_token: self.authorization_token@,
            from: self.from@,
            to: self.to@,
            subject: self.subject@,
            html_body: self.html_body@,
            text_body: self.text_body@,
        }
    }
}

/// The client's configuration: provider endpoint, sender, credential.
pub struct EmailClient {
    sender: SubscriberEmail,
    authorization_token: String,
    email_url: String,
}

/// What an `EmailClient` holds, as plain sequences.
#[verifier::ext_equal]
pub struct EmailClientModel {
    pub sender: Seq<char>,
    pub authorization_token: Seq<char>,
    pub email_url: Seq<char>,
}

impl View for EmailClient {
    type V = EmailClientModel;

    closed spec fn view(&self) -> EmailClientModel {
        EmailClientModel {
            sender: self.sender@,
            authorization_token: self.authorization_token@,
            email_url: self.email_url@,
        }
    }
}

/// The request `send_email_request` builds.
pub open spec fn spec_send_request(
    c: EmailClientModel,
    to: Seq<char>,
    subject: Seq<char>,
    html_body: Seq<char>,
    text_body: Seq<char>,
) -> EmailRequestModel {
    EmailRequestModel {
        url: c.email_url,
        authorization_token: c.authorization_token,
        from: c.sender,
        to,
        subject,
        html_body,
        text_body,
    }
}

impl EmailClient {
    /// Configures a client whose send endpoint is `email`, resolved
    /// against the provider's base URL.
    pub fn new(base_url: &str, sender: SubscriberEmail, authorization_token: String) -> (r: Result<
        EmailClient,
        EmailClientError,
    >)
        ensures
            match r {
                Ok(c) => url_join_of(base_url@, "email"@) == Some(c@.email_url) && c@.sender
                    == sender@ && c@.authorization_token == authorization_token@,
                Err(e) => url_join_of(base_url@, "email"@) is None && e
                    == EmailClientError::InvalidBaseUrl,
            },
    {
        match join_url(base_url, "email") {
            Some(email_url) => Ok(EmailClient { sender, authorization_token, email_url }),
            None => Err(EmailClientError::InvalidBaseUrl),
        }
    }

    /// The POST request that sends one email through the provider, with
    /// the configured sender and credential.
    pub fn send_email_request(
        &self,
        recipient: &SubscriberEmail,
        subject: &str,
        html_body: &str,
        text_body: &str,
    ) -> (r: EmailRequest)
        ensures
            r@ == spec_send_request(self@, recipient@, subject@, html_body@, text_body@),
    {
        EmailRequest {
            url: self.email_url.clone(),
            authorization_token: self.authorization_token.clone(),
            from: self.sender.to_string(),
            to: recipient.to_string(),
            subject: subject.to_owned(),
            html_body: html_body.to_owned(),
            text_body: text_body.to_owned(),
        }
    }
}

/// Whether a provider status code reports success.
pub open spec fn spec_status_is_success(c: u16) -> bool {
    200 <= c && c < 300
}

/// Classifies the outcome of one send: any 2xx status is success; any
/// other status, and a transport error or timeout (`None`), is a
/// `DispatchError`.
pub fn dispatch_outcome(status: Option<u16>) -> (r: Result<(), DispatchError>)
    ensures
        match r {
            Ok(()) => status matches Some(c) && spec_status_is_success(c),
            Err(e) => match status {
                Some(c) => !spec_status_is_success(c) && e == DispatchError::ErrorStatus(c),
                None => e == DispatchError::Transport,
            },
        },
{
    match status {
        Some(c) => {
            if 200 <= c && c < 300 {
                Ok(())
            } else {
                Err(DispatchError::ErrorStatus(c))
            }
        },
        None => Err(DispatchError::Transport),
    }
}

} // verus!
