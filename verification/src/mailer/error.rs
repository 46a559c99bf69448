use vstd::prelude::*;

use crate::text::{decimal, decimal_text};

verus! {

/// A negative answer of the SMTP server: its code and the text that came with it.
#[derive(Debug, Clone, PartialEq, Eq)]
pub struct SmtpReply {
    pub code: u16,
    pub text: String,
}

/// Why a verification email was not sent.
#[derive(Debug, Clone, PartialEq, Eq)]
pub enum MailerError {
    /// The configured sender is no mailbox.
    InvalidSender,
    /// The recipient is no mailbox.
    InvalidRecipient,
    /// The message could not be assembled.
    BuildError,
    /// No usable, encrypted connection to the server.
    TransportError { reply: Option<SmtpReply> },
    /// The server did not accept the credentials.
    AuthError { reply: Option<SmtpReply> },
    /// The server refused the message.
    SubmitError { reply: Option<SmtpReply> },
}

impl MailerError {
    /// The name of the error's category.
    pub open spec fn tag(self) -> Seq<char> {
        match self {
            MailerError::InvalidSender => "InvalidSender"@,
            MailerError::InvalidRecipient => "InvalidRecipient"@,
            MailerError::BuildError => "BuildError"@,
            MailerError::TransportError { .. } => "TransportError"@,
            MailerError::AuthError { .. } => "AuthError"@,
            MailerError::SubmitError { .. } => "SubmitError"@,
        }
    }

    /// The server's answer that the error carries, if any.
    pub open spec fn server_reply(self) -> Option<SmtpReply> {
        match self {
            MailerError::TransportError { reply } => reply,
            MailerError::AuthError { reply } => reply,
            MailerError::SubmitError { reply } => reply,
            _ => None,
        }
    }

    /// The category, followed by the server's code and text where there are any.
    pub open spec fn description(self) -> Seq<char> {
        match self.server_reply() {
            Some(reply) => self.tag() + ": "@ + decimal(reply.code as nat) + " "@ + reply.text@,
            None => self.tag(),
        }
    }

    pub fn category(&self) -> (name: &'static str)
        ensures
            name@ == self.tag(),
    {
        match self {
            MailerError::InvalidSender => "InvalidSender",
            MailerError::InvalidRecipient => "InvalidRecipient",
            MailerError::BuildError => "BuildError",
            MailerError::TransportError { .. } => "TransportError",
            MailerError::AuthError { .. } => "AuthError",
            MailerError::SubmitError { .. } => "SubmitError",
        }
    }

    pub fn reply(&self) -> (reply: Option<&SmtpReply>)
        ensures
            reply matches Some(r) ==> self.server_reply() == Some(*r),
            reply is None ==> self.server_reply() is None,
    {
        match self {
            MailerError::TransportError { reply } => reply.as_ref(),
            MailerError::AuthError { reply } => reply.as_ref(),
            MailerError::SubmitError { reply } => reply.as_ref(),
            _ => None,
        }
    }

    /// One line that says what went wrong, for the error log.
    pub fn describe(&self) -> (line: String)
        ensures
            line@ == self.description(),
    {
        let mut line = String::from_str(self.category());
        match self.reply() {
            Some(reply) => {
                line.append(": ");
                let code = decimal_text(reply.code);
                line.append(code.as_str());
                line.append(" ");
                line.append(reply.text.as_str());
            },
            None => {},
        }
        line
    }
}

} // verus!
