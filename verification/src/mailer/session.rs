use vstd::prelude::*;

use crate::mailer::error::{MailerError, SmtpReply};
use crate::mailer::message::Prepared;

verus! {

/// The SASL mechanisms the mailer can use.
#[derive(Clone, Copy, Debug, PartialEq, Eq, Structural)]
pub enum Mechanism {
    Plain,
    Login,
}

/// One step of the SMTP dialogue, as the transport performs it.
#[derive(Clone, Copy, Debug, PartialEq, Eq, Structural)]
pub enum Command {
    /// Open the TCP connection, read the greeting, send `EHLO`.
    Connect,
    /// Send `STARTTLS`, complete the handshake, send `EHLO` again.
    StartTls,
    /// Send `AUTH` with the configured credentials.
    Authenticate(Mechanism),
    /// Send `MAIL FROM`, `RCPT TO`, `DATA` and the message.
    Submit,
    /// Send `QUIT`.
    Quit,
}

/// What the server advertised in its latest answer to `EHLO`.
#[derive(Clone, Copy, Debug, PartialEq, Eq, Structural)]
pub struct Capabilities {
    pub starttls: bool,
    pub auth_plain: bool,
    pub auth_login: bool,
}

/// What came of a command.
#[derive(Debug, Clone, PartialEq, Eq)]
pub enum Event {
    /// The server accepted every part of it.
    Completed(Capabilities),
    /// The server answered with a negative reply.
    Rejected(SmtpReply),
    /// No usable answer: the network, TLS, or a malformed reply.
    Failed,
}

/// What the transport is to do next.
#[derive(Debug, PartialEq, Eq)]
pub enum Step {
    Issue(Command),
    /// The session is over; close the connection.
    Finish(Result<(), MailerError>),
}

/// The mechanism to authenticate with: `PLAIN` where the server offers it,
/// else `LOGIN`.
pub open spec fn preferred_mechanism(offered: Capabilities) -> Option<Mechanism> {
    if offered.auth_plain {
        Some(Mechanism::Plain)
    } else if offered.auth_login {
        Some(Mechanism::Login)
    } else {
        None
    }
}

/// The command that follows `performed` once the server has accepted it, or
/// the end of the session where none can follow.
pub open spec fn successor(performed: Command, offered: Capabilities) -> Step {
    match performed {
        Command::Connect => if offered.starttls {
            Step::Issue(Command::StartTls)
        } else {
            Step::Finish(Err(MailerError::TransportError { reply: None }))
        },
        Command::StartTls => match preferred_mechanism(offered) {
            Some(mechanism) => Step::Issue(Command::Authenticate(mechanism)),
            None => Step::Finish(Err(MailerError::AuthError { reply: None })),
        },
        Command::Authenticate(_) => Step::Issue(Command::Submit),
        Command::Submit => Step::Issue(Command::Quit),
        Command::Quit => Step::Finish(Ok(())),
    }
}

/// The error for a negative reply to `performed`.
pub open spec fn rejection(performed: Command, reply: SmtpReply) -> MailerError {
    match performed {
        Command::Connect | Command::StartTls => MailerError::TransportError { reply: Some(reply) },
        Command::Authenticate(_) => MailerError::AuthError { reply: Some(reply) },
        Command::Submit | Command::Quit => MailerError::SubmitError { reply: Some(reply) },
    }
}

/// The step after `performed` has ended in `event`.
pub open spec fn step_after(performed: Command, event: Event) -> Step {
    match event {
        Event::Completed(offered) => successor(performed, offered),
        Event::Rejected(reply) => Step::Finish(Err(rejection(performed, reply))),
        Event::Failed => Step::Finish(Err(MailerError::TransportError { reply: None })),
    }
}

/// Opens the session for a composed message: the first thing to do is to
/// connect. There is no other way to a first command, so no connection is
/// opened for a request that did not pass validation.
#[allow(unused_variables)]
pub fn first_command(prepared: &Prepared) -> (command: Command)
    ensures
        command == Command::Connect,
{
    Command::Connect
}

/// Picks the mechanism to authenticate with.
pub fn choose_mechanism(offered: Capabilities) -> (chosen: Option<Mechanism>)
    ensures
        chosen == preferred_mechanism(offered),
{
    if offered.auth_plain {
        Some(Mechanism::Plain)
    } else if offered.auth_login {
        Some(Mechanism::Login)
    } else {
        None
    }
}

/// Decides what follows a command: the next command while the server goes
/// along, and the end of the session, with the error classified by the step
/// that failed, as soon as it does not.
pub fn next_step(performed: Command, event: Event) -> (step: Step)
    ensures
        step == step_after(performed, event),
{
    match event {
        Event::Completed(offered) => match performed {
            Command::Connect => if offered.starttls {
                Step::Issue(Command::StartTls)
            } else {
                Step::Finish(Err(MailerError::TransportError { reply: None }))
            },
            Command::StartTls => match choose_mechanism(offered) {
                Some(mechanism) => Step::Issue(Command::Authenticate(mechanism)),
                None => Step::Finish(Err(MailerError::AuthError { reply: None })),
            },
            Command::Authenticate(_) => Step::Issue(Command::Submit),
            Command::Submit => Step::Issue(Command::Quit),
            Command::Quit => Step::Finish(Ok(())),
        },
        Event::Rejected(reply) => {
            let error = match performed {
                Command::Connect | Command::StartTls => MailerError::TransportError {
                    reply: Some(reply),
                },
                Command::Authenticate(_) => MailerError::AuthError { reply: Some(reply) },
                Command::Submit | Command::Quit => MailerError::SubmitError { reply: Some(reply) },
            };
            Step::Finish(Err(error))
        },
        Event::Failed => Step::Finish(Err(MailerError::TransportError { reply: None })),
    }
}

/// How a session ends in which the commands, from `performed` on, ended in
/// `events`, one after the other: `None` where the events stop before the
/// session is over, or go on after it.
pub open spec fn session_result(performed: Command, events: Seq<Event>) -> Option<
    Result<(), MailerError>,
>
    decreases events.len(),
{
    if events.len() == 0 {
        None
    } else {
        match step_after(performed, events[0]) {
            Step::Finish(result) => if events.len() == 1 {
                Some(result)
            } else {
                None
            },
            Step::Issue(next) => session_result(next, events.drop_first()),
        }
    }
}

/// The events of a complete dialogue: connect, STARTTLS, authentication,
/// submission and QUIT, each accepted by the server, which offered STARTTLS at
/// first and a usable mechanism once the channel was encrypted.
pub open spec fn full_dialogue(events: Seq<Event>) -> bool {
    &&& events.len() == 5
    &&& forall|i: int| 0 <= i < 5 ==> #[trigger] events[i] is Completed
    &&& events[0]->Completed_0.starttls
    &&& preferred_mechanism(events[1]->Completed_0) is Some
}

/// A session reports success if and only if the whole dialogue took place:
/// there is no success after a part of it.
pub proof fn lemma_success_means_full_dialogue(events: Seq<Event>)
    ensures
        session_result(Command::Connect, events) == Some(Ok::<(), MailerError>(()))
            <==> full_dialogue(events),
{
    reveal_with_fuel(session_result, 6);
    let e1 = events.drop_first();
    let e2 = e1.drop_first();
    let e3 = e2.drop_first();
    let e4 = e3.drop_first();
    if events.len() >= 2 {
        assert(e1[0] == events[1]);
    }
    if events.len() >= 3 {
        assert(e2[0] == events[2]);
    }
    if events.len() >= 4 {
        assert(e3[0] == events[3]);
    }
    if events.len() >= 5 {
        assert(e4[0] == events[4]);
    }
}

/// The commands that are performed, one after the other, when those from
/// `performed` on end in `events`.
pub open spec fn commands_issued(performed: Command, events: Seq<Event>) -> Seq<Command>
    decreases events.len(),
{
    if events.len() == 0 {
        seq![performed]
    } else {
        match step_after(performed, events[0]) {
            Step::Finish(_) => seq![performed],
            Step::Issue(next) => seq![performed] + commands_issued(next, events.drop_first()),
        }
    }
}

/// A complete dialogue runs in one order: connect, STARTTLS, authentication
/// with the preferred mechanism, submission, QUIT.
pub proof fn lemma_full_dialogue_order(events: Seq<Event>)
    requires
        full_dialogue(events),
    ensures
        commands_issued(Command::Connect, events) == seq![
            Command::Connect,
            Command::StartTls,
            Command::Authenticate(preferred_mechanism(events[1]->Completed_0)->0),
            Command::Submit,
            Command::Quit,
        ],
{
    reveal_with_fuel(commands_issued, 6);
    let e1 = events.drop_first();
    let e2 = e1.drop_first();
    let e3 = e2.drop_first();
    let e4 = e3.drop_first();
    assert(events[0] is Completed);
    assert(e1[0] == events[1]);
    assert(e2[0] == events[2]);
    assert(e3[0] == events[3]);
    assert(e4[0] == events[4]);
}

/// Whatever the command, an answer other than acceptance ends the session
/// with an error: nothing is sent after it.
pub proof fn lemma_refusal_ends_session(performed: Command, event: Event)
    requires
        !(event is Completed),
    ensures
        step_after(performed, event) matches Step::Finish(Err(_)),
{
}

} // verus!
