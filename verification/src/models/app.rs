use vstd::prelude::*;

use crate::models::email::{email_syntax, Email};
use crate::text::{number_u16, parse_u16};

verus! {

/// Where the server listens.
pub const BIND_ADDRESS: &'static str = "127.0.0.1:3000";

/// The peer that may use the service unless the configuration names another.
pub const DEFAULT_ALLOWED_IP: &'static str = "127.0.0.1";

/// The SMTP server that is used unless the configuration names another.
pub const DEFAULT_SMTP_HOST: &'static str = "smtp.gmail.com";

/// The submission port.
pub const DEFAULT_SMTP_PORT: u16 = 587;

/// The configuration of the process: made once at startup, then only read.
#[derive(Clone)]
pub struct AppState {
    pub smtp_username: String,
    pub smtp_password: String,
    pub from_email: Email,
    /// The only peer address that may use the service.
    pub allowed_ip: String,
    pub smtp_host: String,
    pub smtp_port: u16,
}

/// Why the process cannot start.
#[derive(Clone, Copy, Debug, PartialEq, Eq, Structural)]
pub enum ConfigError {
    MissingUsername,
    MissingPassword,
    MissingFromEmail,
    /// `FROM_EMAIL` is no valid address.
    InvalidFromEmail,
    /// `SMTP_PORT` is no port number.
    InvalidPort,
}

impl ConfigError {
    /// What the process says before it exits.
    pub open spec fn text(self) -> Seq<char> {
        match self {
            ConfigError::MissingUsername => "SMTP_USERNAME must be set"@,
            ConfigError::MissingPassword => "SMTP_PASSWORD must be set"@,
            ConfigError::MissingFromEmail => "FROM_EMAIL must be set"@,
            ConfigError::InvalidFromEmail => "FROM_EMAIL must be a valid email address"@,
            ConfigError::InvalidPort => "SMTP_PORT must be a port number"@,
        }
    }

    pub fn message(self) -> (text: &'static str)
        ensures
            text@ == self.text(),
    {
        match self {
            ConfigError::MissingUsername => "SMTP_USERNAME must be set",
            ConfigError::MissingPassword => "SMTP_PASSWORD must be set",
            ConfigError::MissingFromEmail => "FROM_EMAIL must be set",
            ConfigError::InvalidFromEmail => "FROM_EMAIL must be a valid email address",
            ConfigError::InvalidPort => "SMTP_PORT must be a port number",
        }
    }
}

/// The first thing that is wrong with the values of the environment, in the
/// order in which they are looked at.
pub open spec fn first_fault(
    smtp_username: Option<String>,
    smtp_password: Option<String>,
    from_email: Option<String>,
    smtp_port: Option<String>,
) -> Option<ConfigError> {
    if smtp_username is None {
        Some(ConfigError::MissingUsername)
    } else if smtp_password is None {
        Some(ConfigError::MissingPassword)
    } else if from_email is None {
        Some(ConfigError::MissingFromEmail)
    } else if !email_syntax(from_email->0@) {
        Some(ConfigError::InvalidFromEmail)
    } else if smtp_port is Some && number_u16(smtp_port->0@) is None {
        Some(ConfigError::InvalidPort)
    } else {
        None
    }
}

/// The value of an optional setting: what was given, else the default.
pub open spec fn or_default(given: Option<String>, default: Seq<char>) -> Seq<char> {
    match given {
        Some(text) => text@,
        None => default,
    }
}

fn text_or(given: Option<String>, default: &str) -> (text: String)
    ensures
        text@ == or_default(given, default@),
{
    match given {
        Some(text) => text,
        None => default.to_owned(),
    }
}

impl AppState {
    /// Makes the configuration from the values of `SMTP_USERNAME`,
    /// `SMTP_PASSWORD`, `FROM_EMAIL`, `ALLOWED_IP`, `SMTP_HOST` and
    /// `SMTP_PORT`, each `None` where the variable is not set. The first three
    /// are required; the others have defaults.
    pub fn load(
        smtp_username: Option<String>,
        smtp_password: Option<String>,
        from_email: Option<String>,
        allowed_ip: Option<String>,
        smtp_host: Option<String>,
        smtp_port: Option<String>,
    ) -> (loaded: Result<AppState, ConfigError>)
        ensures
            match loaded {
                Err(fault) => first_fault(smtp_username, smtp_password, from_email, smtp_port)
                    == Some(fault),
                Ok(state) => {
                    &&& first_fault(smtp_username, smtp_password, from_email, smtp_port) is None
                    &&& state.smtp_username == smtp_username->0
                    &&& state.smtp_password == smtp_password->0
                    &&& state.from_email@ == from_email->0@
                    &&& state.allowed_ip@ == or_default(allowed_ip, DEFAULT_ALLOWED_IP@)
                    &&& state.smtp_host@ == or_default(smtp_host, DEFAULT_SMTP_HOST@)
                    &&& state.smtp_port == match smtp_port {
                        Some(text) => number_u16(text@)->0,
                        None => DEFAULT_SMTP_PORT,
                    }
                },
            },
    {
        let smtp_username = match smtp_username {
            Some(text) => text,
            None => return Err(ConfigError::MissingUsername),
        };
        let smtp_password = match smtp_password {
            Some(text) => text,
            None => return Err(ConfigError::MissingPassword),
        };
        let from_email = match from_email {
            Some(text) => text,
            None => return Err(ConfigError::MissingFromEmail),
        };
        let from_email = match Email::from_str(from_email.as_str()) {
            Ok(email) => email,
            Err(_) => return Err(ConfigError::InvalidFromEmail),
        };
        let smtp_port = match smtp_port {
            Some(text) => match parse_u16(text.as_str()) {
                Some(port) => port,
                None => return Err(ConfigError::InvalidPort),
            },
            None => DEFAULT_SMTP_PORT,
        };
        Ok(
            AppState {
                smtp_username,
                smtp_password,
                from_email,
                allowed_ip: text_or(allowed_ip, DEFAULT_ALLOWED_IP),
                smtp_host: text_or(smtp_host, DEFAULT_SMTP_HOST),
                smtp_port,
            },
        )
    }
}

} // verus!
