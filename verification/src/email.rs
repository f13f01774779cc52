//! The invitation e-mail: its subject, link, plain-text and HTML bodies,
//! and the checks on the sender and recipient addresses.

use vstd::prelude::*;
use crate::config::EmailConfig;
use crate::errors::{ServiceError, ServiceErrorView};
use crate::text::{concat, concat3};

verus! {

/// The subject of an invitation to join an account.
pub open spec fn invite_subject_text(account_name: Seq<char>) -> Seq<char> {
    "You've been invited to join "@ + account_name
}

/// The link that accepts an invitation.
pub open spec fn invite_url_text(base_url: Seq<char>, token: Seq<char>) -> Seq<char> {
    base_url + "/accept-invite?token="@ + token
}

/// The name an invitation greets: the recipient's, or `there`.
pub open spec fn greeting_name(recipient_name: Option<&str>) -> Seq<char> {
    match recipient_name {
        Some(n) => n@,
        None => "there"@,
    }
}

/// The plain-text body of an invitation.
pub open spec fn invite_text_body(
    recipient: Seq<char>,
    inviter: Seq<char>,
    account: Seq<char>,
    url: Seq<char>,
) -> Seq<char> {
    "You've been invited!\n\nHi "@
        + recipient
        + ",\n\n"@
        + inviter
        + " has invited you to join "@
        + account
        + ".\n\nClick the link below to accept your invitation:\n"@
        + url
        + "\n\nThis invitation will expire in 72 hours. If you didn't expect this invitation, you can safely ignore this email.\n            "@
}

/// The HTML body of an invitation.
pub open spec fn invite_html_body(
    recipient: Seq<char>,
    inviter: Seq<char>,
    account: Seq<char>,
    url: Seq<char>,
) -> Seq<char> {
    "\n            <!DOCTYPE html>\n            <html>\n            <head>\n                <meta charset=\"UTF-8\">\n                <title>Invitation to join "@
        + account
        + "</title>\n            </head>\n            <body style=\"font-family: Arial, sans-serif; line-height: 1.6; color: #333;\">\n                <div style=\"max-width: 600px; margin: 0 auto; padding: 20px;\">\n                    <h2 style=\"color: #2c3e50;\">You've been invited!</h2>\n                    \n                    <p>Hi "@
        + recipient
        + ",</p>\n                    \n                    <p><strong>"@
        + inviter
        + "</strong> has invited you to join <strong>"@
        + account
        + " organization</strong>.</p>\n                    \n                    <p>Click the button below to accept your invitation:</p>\n                    \n                    <div style=\"text-align: center; margin: 30px 0;\">\n                        <a href=\""@
        + url
        + "\" \n                           style=\"background-color: #3498db; color: white; padding: 12px 30px; \n                                  text-decoration: none; border-radius: 5px; display: inline-block;\">\n                            Accept Invitation\n                        </a>\n                    </div>\n                    \n                    <p>Or copy and paste this link into your browser:</p>\n                    <p style=\"word-break: break-all; color: #7f8c8d;\">"@
        + url
        + "</p>\n                    \n                    <hr style=\"border: none; border-top: 1px solid #ecf0f1; margin: 30px 0;\">\n                    \n                    <p style=\"font-size: 12px; color: #7f8c8d;\">\n                        This invitation will expire in 72 hours. If you didn't expect this invitation, \n                        you can safely ignore this email.\n                    </p>\n                </div>\n            </body>\n            </html>\n            "@
}

/// Builds the plain-text body of an invitation.
pub fn build_invite_text(
    recipient_name: &str,
    inviter_name: &str,
    account_name: &str,
    invite_url: &str,
) -> (r: String)
    ensures
        r@ == invite_text_body(recipient_name@, inviter_name@, account_name@, invite_url@),
{
    let mut s = String::from_str("You've been invited!\n\nHi ");
    s.append(recipient_name);
    s.append(",\n\n");
    s.append(inviter_name);
    s.append(" has invited you to join ");
    s.append(account_name);
    s.append(".\n\nClick the link below to accept your invitation:\n");
    s.append(invite_url);
    s.append("\n\nThis invitation will expire in 72 hours. If you didn't expect this invitation, you can safely ignore this email.\n            ");
    s
}

/// Builds the HTML body of an invitation.
pub fn build_invite_html(
    recipient_name: &str,
    inviter_name: &str,
    account_name: &str,
    invite_url: &str,
) -> (r: String)
    ensures
        r@ == invite_html_body(recipient_name@, inviter_name@, account_name@, invite_url@),
{
    let mut s = String::from_str("\n            <!DOCTYPE html>\n            <html>\n            <head>\n                <meta charset=\"UTF-8\">\n                <title>Invitation to join ");
    s.append(account_name);
    s.append("</title>\n            </head>\n            <body style=\"font-family: Arial, sans-serif; line-height: 1.6; color: #333;\">\n                <div style=\"max-width: 600px; margin: 0 auto; padding: 20px;\">\n                    <h2 style=\"color: #2c3e50;\">You've been invited!</h2>\n                    \n                    <p>Hi ");
    s.append(recipient_name);
    s.append(",</p>\n                    \n                    <p><strong>");
    s.append(inviter_name);
    s.append("</strong> has invited you to join <strong>");
    s.append(account_name);
    s.append(" organization</strong>.</p>\n                    \n                    <p>Click the button below to accept your invitation:</p>\n                    \n                    <div style=\"text-align: center; margin: 30px 0;\">\n                        <a href=\"");
    s.append(invite_url);
    s.append("\" \n                           style=\"background-color: #3498db; color: white; padding: 12px 30px; \n                                  text-decoration: none; border-radius: 5px; display: inline-block;\">\n                            Accept Invitation\n                        </a>\n                    </div>\n                    \n                    <p>Or copy and paste this link into your browser:</p>\n                    <p style=\"word-break: break-all; color: #7f8c8d;\">");
    s.append(invite_url);
    s.append("</p>\n                    \n                    <hr style=\"border: none; border-top: 1px solid #ecf0f1; margin: 30px 0;\">\n                    \n                    <p style=\"font-size: 12px; color: #7f8c8d;\">\n                        This invitation will expire in 72 hours. If you didn't expect this invitation, \n                        you can safely ignore this email.\n                    </p>\n                </div>\n            </body>\n            </html>\n            ");
    s
}

/// An invitation e-mail ready to be sent.
#[derive(Debug, Clone, PartialEq, Eq)]
pub struct InviteEmail {
    pub to: String,
    pub subject: String,
    pub html: String,
    pub text: String,
}

/// Composes the invitation e-mail for a recipient: the subject names the
/// account, and both bodies greet the recipient (or `there`) and carry the
/// link `<base url>/accept-invite?token=<token>`.
pub fn invite_email(
    config: &EmailConfig,
    recipient_email: &str,
    recipient_name: Option<&str>,
    invite_token: &str,
    inviter_name: &str,
    account_name: &str,
) -> (r: InviteEmail)
    ensures
        r.to@ == recipient_email@,
        r.subject@ == invite_subject_text(account_name@),
        r.text@ == invite_text_body(
            greeting_name(recipient_name),
            inviter_name@,
            account_name@,
            invite_url_text(config.base_url@, invite_token@),
        ),
        r.html@ == invite_html_body(
            greeting_name(recipient_name),
            inviter_name@,
            account_name@,
            invite_url_text(config.base_url@, invite_token@),
        ),
{
    let subject = concat("You've been invited to join ", account_name);
    let invite_url = concat3(config.base_url.as_str(), "/accept-invite?token=", invite_token);
    let greeted: &str = match recipient_name {
        Some(n) => n,
        None => "there",
    };
    let html = build_invite_html(greeted, inviter_name, account_name, invite_url.as_str());
    let text = build_invite_text(greeted, inviter_name, account_name, invite_url.as_str());
    InviteEmail { to: String::from_str(recipient_email), subject, html, text }
}

/// The sender mailbox of the configuration: `<from name> <<from e-mail>>`.
pub open spec fn from_mailbox_text(config: EmailConfig) -> Seq<char> {
    config.from_name@ + " <"@ + config.from_email@ + ">"@
}

/// Writes the sender mailbox of the configuration.
pub fn from_mailbox(config: &EmailConfig) -> (r: String)
    ensures
        r@ == from_mailbox_text(*config),
{
    let mut s = String::from_str(config.from_name.as_str());
    s.append(" <");
    s.append(config.from_email.as_str());
    s.append(">");
    s
}

/// The text of the error `lettre`'s mailbox parser reports for a text, or
/// `None` when the text is a mailbox.
pub uninterp spec fn mailbox_parse_error(s: Seq<char>) -> Option<Seq<char>>;

/// Calls `lettre::message::Mailbox::from_str`. Claimed: whether the text is a
/// mailbox, and the error's text when it is not, depend on the text alone.
#[verifier::external_body]
fn mailbox_error(s: &str) -> (r: Option<String>)
    ensures
        match r {
            None => mailbox_parse_error(s@) is None,
            Some(e) => mailbox_parse_error(s@) == Some(e@),
        },
{
    match <lettre::message::Mailbox as std::str::FromStr>::from_str(s) {
        Ok(_) => None,
        Err(e) => Some(e.to_string()),
    }
}

/// Checks the two addresses of an e-mail before it is built: the sender
/// mailbox of the configuration first (`Invalid from email: <error>`), then
/// the recipient (`Invalid recipient email: <error>`), both validation
/// errors.
pub fn check_mailboxes(config: &EmailConfig, to_email: &str) -> (r: Result<(), ServiceError>)
    ensures
        match mailbox_parse_error(from_mailbox_text(*config)) {
            Some(m) => r matches Err(e) && e@ == (ServiceErrorView::Validation {
                message: "Invalid from email: "@ + m,
            }),
            None => match mailbox_parse_error(to_email@) {
                Some(m) => r matches Err(e) && e@ == (ServiceErrorView::Validation {
                    message: "Invalid recipient email: "@ + m,
                }),
                None => r is Ok,
            },
        },
{
    let from = from_mailbox(config);
    if let Some(m) = mailbox_error(from.as_str()) {
        let message = concat("Invalid from email: ", m.as_str());
        return Err(ServiceError::Validation { message });
    }
    if let Some(m) = mailbox_error(to_email) {
        let message = concat("Invalid recipient email: ", m.as_str());
        return Err(ServiceError::Validation { message });
    }
    Ok(())
}

} // verus!
