use vstd::prelude::*;

use crate::mailer::error::MailerError;
use crate::mailer::message::{
    compose_verification_email, mailbox_syntax, verification_message, Prepared,
};
use crate::models::app::AppState;
use crate::models::email::{email_syntax, DecodeFailure, EmailRequest, EmailResponse};
use crate::models::http::{Reply, StatusCode};
use crate::text::{contains_char, occurs_in};

verus! {

/// The message for an address that is missing or not valid.
pub const INVALID_EMAIL: &'static str = "Неверный формат email";

/// The message for a body that is no JSON object with the two fields.
pub const MALFORMED_REQUEST: &'static str = "Неверный формат запроса";

/// The message after the server has taken the email.
pub const SENT: &'static str = "Письмо успешно отправлено.";

/// The message for every failure of the mailer.
pub const SEND_FAILED: &'static str = "Не удалось отправить письмо";

/// What stands before the error in the log.
pub const LOG_PREFIX: &'static str = "Ошибка отправки письма: ";

/// What the handler decides on a decoded request.
#[derive(Debug)]
pub enum HandlerStep {
    /// Answer at once; no connection is opened.
    Respond(Reply),
    /// The request is valid and the message composed: run an SMTP session
    /// with it, and answer with what `finish_send_email` makes of its end.
    Deliver(Prepared),
}

/// The reply is the 500 for `error`: the fixed body for the client, and the
/// error's description for the log.
pub open spec fn reports(reply: Reply, error: MailerError) -> bool {
    &&& reply.answers(StatusCode::InternalServerError, false, SEND_FAILED@)
    &&& reply.log matches Some(line)
    &&& line@ == LOG_PREFIX@ + error.description()
}

/// The reply is a 400 with `message`, and logs nothing.
pub open spec fn refuses(reply: Reply, message: Seq<char>) -> bool {
    reply.answers(StatusCode::BadRequest, false, message) && reply.log is None
}

/// The reply is the 200 for an email that was sent.
pub open spec fn confirms(reply: Reply) -> bool {
    reply.answers(StatusCode::Success, true, SENT@) && reply.log is None
}

/// The reply is one that this service gives to `POST /send-email`.
pub open spec fn is_answer(reply: Reply) -> bool {
    ||| refuses(reply, INVALID_EMAIL@)
    ||| refuses(reply, MALFORMED_REQUEST@)
    ||| confirms(reply)
    ||| exists|error: MailerError| reports(reply, error)
}

fn bad_request(message: &str) -> (reply: Reply)
    ensures
        refuses(reply, message@),
{
    Reply {
        status: StatusCode::BadRequest,
        body: EmailResponse { success: false, message: message.to_owned() },
        log: None,
    }
}

fn internal_error(error: &MailerError) -> (reply: Reply)
    ensures
        reports(reply, *error),
{
    let mut line = String::from_str(LOG_PREFIX);
    let description = error.describe();
    line.append(description.as_str());
    Reply {
        status: StatusCode::InternalServerError,
        body: EmailResponse { success: false, message: SEND_FAILED.to_owned() },
        log: Some(line),
    }
}

/// Answers a request whose body could not be decoded: always 400.
pub fn reject_request(failure: DecodeFailure) -> (reply: Reply)
    ensures
        failure == DecodeFailure::InvalidEmail ==> refuses(reply, INVALID_EMAIL@),
        failure == DecodeFailure::Malformed ==> refuses(reply, MALFORMED_REQUEST@),
        is_answer(reply),
{
    match failure {
        DecodeFailure::InvalidEmail => bad_request(INVALID_EMAIL),
        DecodeFailure::Malformed => bad_request(MALFORMED_REQUEST),
    }
}

/// What the handler may decide on a request with the address `to` and the
/// code `code`, when the configured sender is `from`: 400 for an address
/// without `@`; else 500 where lettre refuses the sender, or the recipient, as
/// a mailbox; else the composed email, or 500 where lettre could not build it.
pub open spec fn decides(
    from: Seq<char>,
    to: Seq<char>,
    code: Seq<char>,
    step: HandlerStep,
) -> bool {
    if !to.contains('@') {
        step matches HandlerStep::Respond(reply) && refuses(reply, INVALID_EMAIL@)
    } else if !mailbox_syntax(from) {
        step matches HandlerStep::Respond(reply) && reports(reply, MailerError::InvalidSender)
    } else if !mailbox_syntax(to) {
        step matches HandlerStep::Respond(reply) && reports(reply, MailerError::InvalidRecipient)
    } else {
        match step {
            HandlerStep::Deliver(prepared) => prepared@ == verification_message(from, to, code),
            HandlerStep::Respond(reply) => reports(reply, MailerError::BuildError),
        }
    }
}

/// `POST /send-email`, up to the point where the network is needed: an address
/// without `@` is answered with 400 at once; otherwise the email is composed,
/// and either handed out for delivery or, where composing failed, answered
/// with 500.
pub fn send_email_handler(state: &AppState, payload: &EmailRequest) -> (step: HandlerStep)
    ensures
        decides(state.from_email@, payload.email@, payload.code@, step),
        step is Deliver ==> {
            &&& payload.email@.contains('@')
            &&& mailbox_syntax(state.from_email@)
            &&& mailbox_syntax(payload.email@)
        },
        step matches HandlerStep::Respond(reply) ==> is_answer(reply),
{
    // Email validation
    if !contains_char(payload.email.as_str(), '@') {
        return HandlerStep::Respond(bad_request(INVALID_EMAIL));
    }
    // Email sending
    match compose_verification_email(&payload.email, payload.code.as_str(), state) {
        Ok(prepared) => HandlerStep::Deliver(prepared),
        Err(error) => HandlerStep::Respond(internal_error(&error)),
    }
}

/// `POST /send-email` from the two fields of the JSON body, each `None` where
/// the body lacks it: a missing or invalid address, and one without `@`, is
/// answered with 400 before anything else is looked at; a missing code is
/// answered with 400 too; what is left goes to `send_email_handler`.
pub fn handle_send_email(
    state: &AppState,
    email: Option<String>,
    code: Option<String>,
) -> (step: HandlerStep)
    ensures
        match (email, code) {
            (None, _) => step matches HandlerStep::Respond(reply) && refuses(reply, INVALID_EMAIL@),
            (Some(address), _) if !address@.contains('@') || !email_syntax(address@) => {
                step matches HandlerStep::Respond(reply) && refuses(reply, INVALID_EMAIL@)
            },
            (Some(_), None) => {
                step matches HandlerStep::Respond(reply) && refuses(reply, MALFORMED_REQUEST@)
            },
            (Some(address), Some(code)) => decides(state.from_email@, address@, code@, step),
        },
        step is Deliver ==> {
            &&& email matches Some(address)
            &&& address@.contains('@')
            &&& email_syntax(address@)
            &&& mailbox_syntax(state.from_email@)
            &&& mailbox_syntax(address@)
            &&& code is Some
        },
        step matches HandlerStep::Respond(reply) ==> is_answer(reply),
{
    let address = match email {
        Some(address) => address,
        None => return HandlerStep::Respond(reject_request(DecodeFailure::InvalidEmail)),
    };
    if !contains_char(address.as_str(), '@') {
        return HandlerStep::Respond(reject_request(DecodeFailure::InvalidEmail));
    }
    match EmailRequest::from_fields(Some(address), code) {
        Ok(request) => send_email_handler(state, &request),
        Err(failure) => HandlerStep::Respond(reject_request(failure)),
    }
}

/// The answer once the SMTP session is over: 200 after a full dialogue, and
/// 500 after any error, which goes to the log and not into the body.
pub fn finish_send_email(outcome: Result<(), MailerError>) -> (reply: Reply)
    ensures
        outcome is Ok ==> confirms(reply),
        outcome matches Err(error) ==> reports(reply, error),
        is_answer(reply),
{
    match outcome {
        Ok(_) => Reply {
            status: StatusCode::Success,
            body: EmailResponse { success: true, message: SENT.to_owned() },
            log: None,
        },
        Err(error) => internal_error(&error),
    }
}

/// What a failed send answers does not depend on the error: two failures,
/// whatever the server said in each, give the same status and the same body.
pub proof fn lemma_failures_answer_alike(
    first: Reply,
    first_error: MailerError,
    second: Reply,
    second_error: MailerError,
)
    requires
        reports(first, first_error),
        reports(second, second_error),
    ensures
        first.status == second.status,
        first.body.success == second.body.success,
        first.body.message@ == second.body.message@,
{
}

/// A text that is not by chance part of one of the four fixed messages (the
/// SMTP password, a reply of the server) is part of no response body.
pub proof fn lemma_body_holds_no_secret(reply: Reply, secret: Seq<char>)
    requires
        is_answer(reply),
        !occurs_in(secret, INVALID_EMAIL@),
        !occurs_in(secret, MALFORMED_REQUEST@),
        !occurs_in(secret, SENT@),
        !occurs_in(secret, SEND_FAILED@),
    ensures
        !occurs_in(secret, reply.body.message@),
{
}

} // verus!
