use verification_mailer::mailer::error::{MailerError, SmtpReply};
use verification_mailer::mailer::message::{
    check_addresses, compose_verification_email, finish_message, html_content, text_content,
    CODE_LABEL, SUBJECT,
};
use verification_mailer::mailer::session::{
    choose_mechanism, first_command, next_step, Capabilities, Command, Event, Mechanism, Step,
};
use verification_mailer::models::app::AppState;
use verification_mailer::models::email::Email;

fn state_with_sender(sender: &str) -> AppState {
    AppState::load(
        Some(String::from("mailer")),
        Some(String::from("hunter2")),
        Some(String::from(sender)),
        None,
        None,
        None,
    )
    .unwrap()
}

fn state() -> AppState {
    state_with_sender("noreply@example.com")
}

fn offers(starttls: bool, auth_plain: bool, auth_login: bool) -> Event {
    Event::Completed(Capabilities {
        starttls,
        auth_plain,
        auth_login,
    })
}

fn reply(code: u16, text: &str) -> SmtpReply {
    SmtpReply {
        code,
        text: String::from(text),
    }
}

fn run(events: Vec<Event>) -> (Vec<Command>, Option<Result<(), MailerError>>) {
    let prepared =
        compose_verification_email(&Email::from_str("u@example.com").unwrap(), "1234", &state())
            .unwrap();
    let mut command = first_command(&prepared);
    let mut issued = vec![command];
    for event in events {
        match next_step(command, event) {
            Step::Issue(next) => {
                command = next;
                issued.push(next);
            }
            Step::Finish(result) => return (issued, Some(result)),
        }
    }
    (issued, None)
}

#[test]
fn text_content_exact() {
    assert_eq!(
        text_content("1234"),
        "Hello!\n\nYour verification code: 1234\n\nThe code is valid for 10 minutes. Do not share this code with anyone\n\nIf you did not request this code, please ignore this email.\n"
    );
}

#[test]
fn text_content_with_an_empty_code() {
    assert_eq!(
        text_content(""),
        "Hello!\n\nYour verification code: \n\nThe code is valid for 10 minutes. Do not share this code with anyone\n\nIf you did not request this code, please ignore this email.\n"
    );
}

#[test]
fn text_content_takes_the_code_as_it_is() {
    let body = text_content("<b>код</b> & 42");
    assert!(body.contains("Your verification code: <b>код</b> & 42\n\n"));
}

#[test]
fn html_content_frames_the_code() {
    let body = html_content("1234");
    assert!(body.starts_with("<!DOCTYPE html>\n        <html>\n            <head><meta charset=\"UTF-8\"></head>"));
    assert!(body.contains("border: 2px dashed #dee2e6;\">\n                    1234\n                </div>"));
    assert!(body.contains("<h2>Verification code</h2>"));
    assert!(body.contains("The code is valid for 10 minutes. Do not share this code with anyone."));
    assert!(body.ends_with("            </body>\n        </html>"));
    assert_eq!(body.len(), html_content("").len() + 4);
}

#[test]
fn html_content_does_not_escape_the_code() {
    let body = html_content("<i>7</i>");
    assert!(body.contains("\n                    <i>7</i>\n"));
}

#[test]
fn composed_message_says_what_was_asked() {
    let to = Email::from_str("u@example.com").unwrap();
    let prepared = compose_verification_email(&to, "1234", &state()).unwrap();
    assert_eq!(prepared.from(), "noreply@example.com");
    assert_eq!(prepared.to(), "u@example.com");
    assert_eq!(prepared.subject(), "Your verification code");
    assert_eq!(prepared.subject(), SUBJECT);
    assert_eq!(prepared.text(), text_content("1234"));
    assert_eq!(prepared.html(), html_content("1234"));
    assert!(prepared.text().contains(&format!("{}1234", CODE_LABEL)));
    assert!(prepared.html().contains("1234"));
}

#[test]
fn composed_message_on_the_wire() {
    let to = Email::from_str("u@example.com").unwrap();
    let prepared = compose_verification_email(&to, "1234", &state()).unwrap();
    let wire = String::from_utf8(prepared.message().formatted()).unwrap();
    let (headers, body) = wire.split_once("\r\n\r\n").unwrap();
    assert_eq!(headers.matches("From: ").count(), 1);
    assert_eq!(headers.matches("To: ").count(), 1);
    assert!(headers.contains("From: noreply@example.com\r\n"));
    assert!(headers.contains("To: u@example.com\r\n"));
    assert_eq!(headers.matches("Subject: Your verification code").count(), 1);
    assert!(headers.contains("Date: "));
    assert!(headers.contains("Message-ID: <"));
    assert!(headers.contains("MIME-Version: 1.0"));
    assert!(headers.contains("Content-Type: multipart/alternative;"));
    let plain = body.find("Content-Type: text/plain; charset=utf-8").unwrap();
    let html = body.find("Content-Type: text/html; charset=utf-8").unwrap();
    assert!(plain < html);
    let code_in_plain = body.find("Your verification code: 1234").unwrap();
    assert!(plain < code_in_plain && code_in_plain < html);
    assert!(body[html..].contains("1234"));
    assert!(body[html..].contains("Verification code"));
    let envelope = prepared.message().envelope();
    assert_eq!(envelope.from().unwrap().to_string(), "noreply@example.com");
    assert_eq!(envelope.to().len(), 1);
    assert_eq!(envelope.to()[0].to_string(), "u@example.com");
}

#[test]
fn recipient_that_lettre_refuses() {
    let to = Email::from_str("user@[127.0.0.1]").unwrap();
    let composed = compose_verification_email(&to, "1234", &state());
    assert_eq!(composed.err(), Some(MailerError::InvalidRecipient));
}

#[test]
fn sender_that_lettre_refuses() {
    let to = Email::from_str("u@example.com").unwrap();
    let composed =
        compose_verification_email(&to, "1234", &state_with_sender("noreply@[127.0.0.1]"));
    assert_eq!(composed.err(), Some(MailerError::InvalidSender));
}

#[test]
fn sender_is_looked_at_before_the_recipient() {
    let to = Email::from_str("user@[127.0.0.1]").unwrap();
    let composed =
        compose_verification_email(&to, "1234", &state_with_sender("noreply@[127.0.0.1]"));
    assert_eq!(composed.err(), Some(MailerError::InvalidSender));
}

#[test]
fn check_addresses_on_each_case() {
    let good = || "u@example.com".parse::<lettre::message::Mailbox>();
    let bad = || "no mailbox".parse::<lettre::message::Mailbox>();
    assert_eq!(
        check_addresses(bad(), good()).err(),
        Some(MailerError::InvalidSender)
    );
    assert_eq!(
        check_addresses(bad(), bad()).err(),
        Some(MailerError::InvalidSender)
    );
    assert_eq!(
        check_addresses(good(), bad()).err(),
        Some(MailerError::InvalidRecipient)
    );
    let sender = "Sender <s@example.com>".parse::<lettre::message::Mailbox>();
    let (from, to) = check_addresses(sender, good()).unwrap();
    assert_eq!(from.email.to_string(), "s@example.com");
    assert_eq!(to.email.to_string(), "u@example.com");
}

#[test]
fn message_that_lettre_could_not_build() {
    let built = lettre::Message::builder().body(String::from("no sender"));
    assert!(built.is_err());
    let finished = finish_message(
        built,
        String::from("noreply@example.com"),
        String::from("u@example.com"),
        String::from(SUBJECT),
        text_content("1234"),
        html_content("1234"),
    );
    assert_eq!(finished.err(), Some(MailerError::BuildError));
}

#[test]
fn message_that_lettre_built() {
    let built = lettre::Message::builder()
        .from("noreply@example.com".parse().unwrap())
        .to("u@example.com".parse().unwrap())
        .body(String::from("body"));
    let finished = finish_message(
        built,
        String::from("noreply@example.com"),
        String::from("u@example.com"),
        String::from(SUBJECT),
        String::from("text"),
        String::from("html"),
    )
    .unwrap();
    assert_eq!(finished.from(), "noreply@example.com");
    assert_eq!(finished.to(), "u@example.com");
    assert_eq!(finished.subject(), SUBJECT);
    assert_eq!(finished.text(), "text");
    assert_eq!(finished.html(), "html");
    assert!(String::from_utf8(finished.message().formatted())
        .unwrap()
        .ends_with("\r\n\r\nbody"));
}

#[test]
fn full_dialogue_succeeds() {
    let (issued, result) = run(vec![
        offers(true, false, false),
        offers(false, true, true),
        offers(false, true, true),
        offers(false, true, true),
        offers(false, true, true),
    ]);
    assert_eq!(
        issued,
        vec![
            Command::Connect,
            Command::StartTls,
            Command::Authenticate(Mechanism::Plain),
            Command::Submit,
            Command::Quit
        ]
    );
    assert_eq!(result, Some(Ok(())));
}

#[test]
fn dialogue_is_not_over_before_quit() {
    let (issued, result) = run(vec![
        offers(true, false, false),
        offers(false, true, true),
        offers(false, true, true),
        offers(false, true, true),
    ]);
    assert_eq!(issued.last(), Some(&Command::Quit));
    assert_eq!(result, None);
}

#[test]
fn plain_is_preferred_to_login() {
    let caps = |auth_plain, auth_login| Capabilities {
        starttls: false,
        auth_plain,
        auth_login,
    };
    assert_eq!(choose_mechanism(caps(true, true)), Some(Mechanism::Plain));
    assert_eq!(choose_mechanism(caps(true, false)), Some(Mechanism::Plain));
    assert_eq!(choose_mechanism(caps(false, true)), Some(Mechanism::Login));
    assert_eq!(choose_mechanism(caps(false, false)), None);
    assert_eq!(
        next_step(Command::StartTls, offers(false, false, true)),
        Step::Issue(Command::Authenticate(Mechanism::Login))
    );
}

#[test]
fn server_without_starttls_is_a_transport_error() {
    let (issued, result) = run(vec![offers(false, true, true)]);
    assert_eq!(issued, vec![Command::Connect]);
    assert_eq!(
        result,
        Some(Err(MailerError::TransportError { reply: None }))
    );
}

#[test]
fn server_without_mechanism_is_an_auth_error() {
    let (issued, result) = run(vec![offers(true, false, false), offers(true, false, false)]);
    assert_eq!(issued, vec![Command::Connect, Command::StartTls]);
    assert_eq!(result, Some(Err(MailerError::AuthError { reply: None })));
}

#[test]
fn rejected_auth_is_an_auth_error() {
    let (issued, result) = run(vec![
        offers(true, false, false),
        offers(false, true, false),
        Event::Rejected(reply(535, "5.7.8 Username and Password not accepted")),
    ]);
    assert_eq!(issued.len(), 3);
    assert_eq!(
        result,
        Some(Err(MailerError::AuthError {
            reply: Some(reply(535, "5.7.8 Username and Password not accepted"))
        }))
    );
}

#[test]
fn rejection_is_classified_by_the_step() {
    let refused = || Event::Rejected(reply(554, "no"));
    let transport = Step::Finish(Err(MailerError::TransportError {
        reply: Some(reply(554, "no")),
    }));
    let submit = Step::Finish(Err(MailerError::SubmitError {
        reply: Some(reply(554, "no")),
    }));
    assert_eq!(next_step(Command::Connect, refused()), transport);
    assert_eq!(next_step(Command::StartTls, refused()), transport);
    assert_eq!(
        next_step(Command::Authenticate(Mechanism::Login), refused()),
        Step::Finish(Err(MailerError::AuthError {
            reply: Some(reply(554, "no"))
        }))
    );
    assert_eq!(next_step(Command::Submit, refused()), submit);
    assert_eq!(next_step(Command::Quit, refused()), submit);
}

#[test]
fn broken_connection_is_a_transport_error_at_every_step() {
    for command in [
        Command::Connect,
        Command::StartTls,
        Command::Authenticate(Mechanism::Plain),
        Command::Authenticate(Mechanism::Login),
        Command::Submit,
        Command::Quit,
    ] {
        assert_eq!(
            next_step(command, Event::Failed),
            Step::Finish(Err(MailerError::TransportError { reply: None }))
        );
    }
}

#[test]
fn error_categories() {
    let none = || None;
    assert_eq!(MailerError::InvalidSender.category(), "InvalidSender");
    assert_eq!(MailerError::InvalidRecipient.category(), "InvalidRecipient");
    assert_eq!(MailerError::BuildError.category(), "BuildError");
    assert_eq!(
        MailerError::TransportError { reply: none() }.category(),
        "TransportError"
    );
    assert_eq!(
        MailerError::AuthError { reply: none() }.category(),
        "AuthError"
    );
    assert_eq!(
        MailerError::SubmitError { reply: none() }.category(),
        "SubmitError"
    );
}

#[test]
fn error_descriptions_exact() {
    assert_eq!(MailerError::InvalidSender.describe(), "InvalidSender");
    assert_eq!(MailerError::BuildError.describe(), "BuildError");
    assert_eq!(
        MailerError::TransportError { reply: None }.describe(),
        "TransportError"
    );
    assert_eq!(
        MailerError::AuthError {
            reply: Some(reply(535, "5.7.8 Username and Password not accepted"))
        }
        .describe(),
        "AuthError: 535 5.7.8 Username and Password not accepted"
    );
    assert_eq!(
        MailerError::SubmitError {
            reply: Some(reply(550, ""))
        }
        .describe(),
        "SubmitError: 550 "
    );
    assert_eq!(
        MailerError::TransportError {
            reply: Some(reply(421, "try later"))
        }
        .describe(),
        "TransportError: 421 try later"
    );
}

#[test]
fn error_hands_out_its_reply() {
    let error = MailerError::SubmitError {
        reply: Some(reply(550, "mailbox unavailable")),
    };
    assert_eq!(error.reply(), Some(&reply(550, "mailbox unavailable")));
    assert_eq!(MailerError::InvalidRecipient.reply(), None);
    assert_eq!(MailerError::AuthError { reply: None }.reply(), None);
}
