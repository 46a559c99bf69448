use lettre::address::AddressError;
use lettre::message::{Mailbox, MultiPart};
use lettre::Message;
use std::str::FromStr;
use vstd::prelude::*;

use crate::mailer::error::MailerError;
use crate::models::app::AppState;
use crate::models::email::Email;
use crate::text::occurs_in;

verus! {

/// lettre's `Mailbox`, an address with an optional display name. Carried
/// from the parser to the builder; nothing is known of its contents.
#[verifier::external_type_specification]
#[verifier::external_body]
pub struct ExMailbox(lettre::message::Mailbox);

/// lettre's `AddressError`, the parser's reason for refusing a text.
#[verifier::external_type_specification]
#[verifier::external_body]
pub struct ExAddressError(lettre::address::AddressError);

/// lettre's `Message`, an assembled email. Carried to the transport; nothing
/// is known of its contents.
#[verifier::external_type_specification]
#[verifier::external_body]
pub struct ExMessage(lettre::Message);

/// lettre's `Error`, the builder's reason for failing.
#[verifier::external_type_specification]
#[verifier::external_body]
pub struct ExBuildError(lettre::error::Error);

/// The subject line of every verification email.
pub const SUBJECT: &'static str = "Your verification code";

/// How the plain-text part opens.
pub const GREETING: &'static str = "Hello!\n\n";

/// What stands directly before the code in the plain-text part.
pub const CODE_LABEL: &'static str = "Your verification code: ";

/// The plain-text part after the code.
pub const TEXT_CLOSING: &'static str = "\n\nThe code is valid for 10 minutes. Do not share this code with anyone\n\nIf you did not request this code, please ignore this email.\n";

/// The HTML part up to the code.
pub const HTML_OPENING: &'static str = "<!DOCTYPE html>\n        <html>\n            <head><meta charset=\"UTF-8\"></head>\n            <body style=\"font-family: Arial, sans-serif; margin: 20px;\">\n                <h2>Verification code</h2>\n                <p>Your code to complete registration:</p>\n                <div style=\"font-size: 32px; font-weight: bold; letter-spacing: 8px;\n                            text-align: center; margin: 25px 0; padding: 15px;\n                            background: #f8f9fa; border-radius: 8px; border: 2px dashed #dee2e6;\">\n                    ";

/// The HTML part after the code.
pub const HTML_CLOSING: &'static str = "\n                </div>\n                <p style=\"color: #6c757d; font-size: 14px;\">\n                    The code is valid for 10 minutes. Do not share this code with anyone.\n                </p>\n            </body>\n        </html>";

/// The plain-text part for a code.
pub open spec fn text_body(code: Seq<char>) -> Seq<char> {
    GREETING@ + CODE_LABEL@ + code + TEXT_CLOSING@
}

/// The HTML part for a code: the code stands in the template as it is.
pub open spec fn html_body(code: Seq<char>) -> Seq<char> {
    HTML_OPENING@ + code + HTML_CLOSING@
}

/// What a verification email says, before it is put into wire format: one
/// sender, one recipient, the subject, and the two alternative parts, the
/// plain text first.
pub struct OutboundMessage {
    pub from: Seq<char>,
    pub to: Seq<char>,
    pub subject: Seq<char>,
    pub text: Seq<char>,
    pub html: Seq<char>,
}

/// The verification email from `from` to `to` that carries `code`.
pub open spec fn verification_message(
    from: Seq<char>,
    to: Seq<char>,
    code: Seq<char>,
) -> OutboundMessage {
    OutboundMessage { from, to, subject: SUBJECT@, text: text_body(code), html: html_body(code) }
}

/// Builds the plain-text part.
pub fn text_content(verification_code: &str) -> (body: String)
    ensures
        body@ == text_body(verification_code@),
{
    let mut body = GREETING.to_owned();
    body.append(CODE_LABEL);
    body.append(verification_code);
    body.append(TEXT_CLOSING);
    body
}

/// Builds the HTML part.
pub fn html_content(verification_code: &str) -> (body: String)
    ensures
        body@ == html_body(verification_code@),
{
    let mut body = HTML_OPENING.to_owned();
    body.append(verification_code);
    body.append(HTML_CLOSING);
    body
}

/// Whether lettre reads the text as a mailbox: an address, with or without a
/// display name before it.
pub uninterp spec fn mailbox_syntax(text: Seq<char>) -> bool;

/// Calls `Mailbox::from_str`, lettre's parser for a mailbox. The parser reads
/// nothing but the text, so whether it succeeds is a property of the text
/// alone; of the mailbox it returns nothing is claimed.
#[verifier::external_body]
fn parse_mailbox(text: &str) -> (parsed: Result<Mailbox, AddressError>)
    ensures
        parsed is Ok <==> mailbox_syntax(text@),
{
    Mailbox::from_str(text)
}

/// Calls lettre's `MessageBuilder`, from `Message::builder` to `multipart`:
/// sets `From`, `To` and `Subject`, has a `Message-ID` generated, and gives the
/// message the body of `MultiPart::alternative_plain_html`, a
/// `multipart/alternative` of a `text/plain` part followed by a `text/html`
/// part. lettre takes the `Date` from the clock and draws the boundary and
/// the id at random, so nothing is claimed of the result.
#[verifier::external_body]
fn assemble(from: Mailbox, to: Mailbox, subject: &str, text: String, html: String) -> (built: Result<
    Message,
    lettre::error::Error,
>) {
    Message::builder()
        .from(from)
        .to(to)
        .subject(subject)
        .message_id(None)
        .multipart(MultiPart::alternative_plain_html(text, html))
}

/// A verification email that is ready to be submitted: what it says, and the
/// message lettre made of it.
#[derive(Debug)]
pub struct Prepared {
    from: String,
    to: String,
    subject: String,
    text: String,
    html: String,
    message: Message,
}

impl View for Prepared {
    type V = OutboundMessage;

    closed spec fn view(&self) -> OutboundMessage {
        OutboundMessage {
            from: self.from@,
            to: self.to@,
            subject: self.subject@,
            text: self.text@,
            html: self.html@,
        }
    }
}

impl Prepared {
    pub fn from(&self) -> (text: &str)
        ensures
            text@ == self@.from,
    {
        self.from.as_str()
    }

    pub fn to(&self) -> (text: &str)
        ensures
            text@ == self@.to,
    {
        self.to.as_str()
    }

    pub fn subject(&self) -> (text: &str)
        ensures
            text@ == self@.subject,
    {
        self.subject.as_str()
    }

    pub fn text(&self) -> (text: &str)
        ensures
            text@ == self@.text,
    {
        self.text.as_str()
    }

    pub fn html(&self) -> (text: &str)
        ensures
            text@ == self@.html,
    {
        self.html.as_str()
    }

    /// The message as lettre assembled it.
    pub closed spec fn wire(self) -> Message {
        self.message
    }

    /// The message in lettre's form, for the transport.
    pub fn message(&self) -> (message: &Message)
        ensures
            *message == self.wire(),
    {
        &self.message
    }
}

/// Tells which address, if any, lettre refused: the sender is looked at first.
pub fn check_addresses(
    sender: Result<Mailbox, AddressError>,
    recipient: Result<Mailbox, AddressError>,
) -> (checked: Result<(Mailbox, Mailbox), MailerError>)
    ensures
        checked == match (sender, recipient) {
            (Err(_), _) => Err::<(Mailbox, Mailbox), MailerError>(MailerError::InvalidSender),
            (Ok(_), Err(_)) => Err(MailerError::InvalidRecipient),
            (Ok(from), Ok(to)) => Ok((from, to)),
        },
{
    match sender {
        Err(_) => Err(MailerError::InvalidSender),
        Ok(from) => match recipient {
            Err(_) => Err(MailerError::InvalidRecipient),
            Ok(to) => Ok((from, to)),
        },
    }
}

/// Joins what was handed to the builder with what the builder made of it.
pub fn finish_message(
    built: Result<Message, lettre::error::Error>,
    from: String,
    to: String,
    subject: String,
    text: String,
    html: String,
) -> (finished: Result<Prepared, MailerError>)
    ensures
        built is Err ==> finished == Err::<Prepared, MailerError>(MailerError::BuildError),
        built is Ok ==> finished is Ok,
        finished matches Ok(prepared) ==> built == Ok::<Message, lettre::error::Error>(
            prepared.wire(),
        ) && prepared@ == (OutboundMessage {
            from: from@,
            to: to@,
            subject: subject@,
            text: text@,
            html: html@,
        }),
{
    match built {
        Err(_) => Err(MailerError::BuildError),
        Ok(message) => Ok(Prepared { from, to, subject, text, html, message }),
    }
}

/// Composes the verification email for `to_email`: builds the two parts around
/// the code, has lettre check both addresses, and has it assemble the message.
/// Opens no connection.
pub fn compose_verification_email(
    to_email: &Email,
    verification_code: &str,
    state: &AppState,
) -> (composed: Result<Prepared, MailerError>)
    ensures
        !mailbox_syntax(state.from_email@) ==> composed == Err::<Prepared, MailerError>(
            MailerError::InvalidSender,
        ),
        mailbox_syntax(state.from_email@) && !mailbox_syntax(to_email@) ==> composed == Err::<
            Prepared,
            MailerError,
        >(MailerError::InvalidRecipient),
        mailbox_syntax(state.from_email@) && mailbox_syntax(to_email@) ==> match composed {
            Ok(prepared) => prepared@ == verification_message(
                state.from_email@,
                to_email@,
                verification_code@,
            ),
            Err(error) => error == MailerError::BuildError,
        },
{
    let text = text_content(verification_code);
    let html = html_content(verification_code);
    let sender = parse_mailbox(state.from_email.as_str());
    let recipient = parse_mailbox(to_email.as_str());
    match check_addresses(sender, recipient) {
        Err(error) => Err(error),
        Ok((from, to)) => {
            let built = assemble(from, to, SUBJECT, text.clone(), html.clone());
            finish_message(
                built,
                state.from_email.as_str().to_owned(),
                to_email.as_str().to_owned(),
                SUBJECT.to_owned(),
                text,
                html,
            )
        },
    }
}

/// Whatever the code, the verification email has one sender, one recipient
/// and the fixed subject, and both of its parts carry the code as it is: the
/// plain text right behind its label.
pub proof fn lemma_message_carries_code(from: Seq<char>, to: Seq<char>, code: Seq<char>)
    ensures
        verification_message(from, to, code).from == from,
        verification_message(from, to, code).to == to,
        verification_message(from, to, code).subject == SUBJECT@,
        occurs_in(CODE_LABEL@ + code, verification_message(from, to, code).text),
        occurs_in(code, verification_message(from, to, code).text),
        occurs_in(code, verification_message(from, to, code).html),
{
    let text = text_body(code);
    let html = html_body(code);
    let label_at = GREETING@.len() as int;
    let labelled = CODE_LABEL@ + code;
    assert(text.subrange(label_at, label_at + labelled.len()) == labelled);
    let code_at = label_at + CODE_LABEL@.len();
    assert(text.subrange(code_at, code_at + code.len()) == code);
    let html_at = HTML_OPENING@.len() as int;
    assert(html.subrange(html_at, html_at + code.len()) == code);
}

} // verus!
