//! The confirmation email: the link it carries and the two bodies around it.
//!
//! Nothing here sends anything. The message is handed to whoever runs the
//! mail transport.

use vstd::prelude::*;
use crate::domain::{valid_email, SubscriberEmail};

verus! {

/// The confirmation link for `token` under `base_url`: the base, the path of
/// the confirmation page, and the token as its one query parameter.
pub open spec fn link_text(base_url: Seq<char>, token: Seq<char>) -> Seq<char> {
    base_url + "/subscriptions/confirm?subscription_token="@ + token
}

/// The subject line of every confirmation email.
pub open spec fn subject_text() -> Seq<char> {
    "Welcome!"@
}

/// The plain-text body around `link`.
pub open spec fn plain_text(link: Seq<char>) -> Seq<char> {
    "Welcome to our newsletter!\nVisit "@ + link + " to confirm your subscription."@
}

/// The HTML body around `link`.
pub open spec fn html_text(link: Seq<char>) -> Seq<char> {
    "Welcome to our newsletter!<br />Click <a href=\""@ + link
        + "\">here</a> to confirm your subscription."@
}

/// A message that asks a new subscriber to confirm.
#[derive(Debug)]
pub struct ConfirmationEmail {
    pub recipient: SubscriberEmail,
    pub subject: String,
    pub html_body: String,
    pub text_body: String,
}

/// What a [`ConfirmationEmail`] holds, as plain values.
pub struct EmailView {
    pub recipient: Seq<char>,
    pub subject: Seq<char>,
    pub html_body: Seq<char>,
    pub text_body: Seq<char>,
}

impl View for ConfirmationEmail {
    type V = EmailView;

    open spec fn view(&self) -> EmailView {
        EmailView {
            recipient: self.recipient@,
            subject: self.subject@,
            html_body: self.html_body@,
            text_body: self.text_body@,
        }
    }
}

/// The confirmation email to `recipient` for `token` under `base_url`.
pub open spec fn confirmation_email_view(
    recipient: Seq<char>,
    base_url: Seq<char>,
    token: Seq<char>,
) -> EmailView {
    let link = link_text(base_url, token);
    EmailView {
        recipient,
        subject: subject_text(),
        html_body: html_text(link),
        text_body: plain_text(link),
    }
}

/// Builds the confirmation link for `subscription_token` under `base_url`.
pub fn confirmation_link(base_url: &str, subscription_token: &str) -> (link: String)
    ensures
        link@ == link_text(base_url@, subscription_token@),
{
    let mut link = base_url.to_owned();
    link.append("/subscriptions/confirm?subscription_token=");
    link.append(subscription_token);
    link
}

/// Builds the confirmation email to `recipient`: a fixed subject, and an
/// HTML and a plain-text body that both carry the confirmation link.
pub fn confirmation_email(
    recipient: SubscriberEmail,
    base_url: &str,
    subscription_token: &str,
) -> (email: ConfirmationEmail)
    ensures
        email@ == confirmation_email_view(recipient@, base_url@, subscription_token@),
        valid_email(email.recipient@),
{
    proof {
        use_type_invariant(&recipient);
    }
    let link = confirmation_link(base_url, subscription_token);
    let mut text_body = "Welcome to our newsletter!\nVisit ".to_owned();
    text_body.append(link.as_str());
    text_body.append(" to confirm your subscription.");
    let mut html_body = "Welcome to our newsletter!<br />Click <a href=\"".to_owned();
    html_body.append(link.as_str());
    html_body.append("\">here</a> to confirm your subscription.");
    ConfirmationEmail { recipient, subject: "Welcome!".to_owned(), html_body, text_body }
}

} // verus!
