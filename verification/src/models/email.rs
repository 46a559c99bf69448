use vstd::prelude::*;

verus! {

/// Whether `serde_email::is_valid_email` accepts the text as an email address.
pub uninterp spec fn email_syntax(text: Seq<char>) -> bool;

/// Calls `serde_email::is_valid_email`, which parses the text with the
/// `email_address` crate's default options and reports whether that succeeded.
/// The answer depends on the text alone.
#[verifier::external_body]
fn is_valid_email(text: &str) -> (valid: bool)
    ensures
        valid == email_syntax(text@),
{
    serde_email::is_valid_email(text)
}

/// Why a text was refused as an email address.
#[derive(Debug, Clone, PartialEq, Eq)]
pub enum EmailError {
    /// The text is not a syntactically valid address.
    Invalid { raw_email: String },
}

/// An email address that has passed validation.
#[derive(Debug, PartialEq, Eq)]
pub struct Email {
    raw_email: String,
}

impl View for Email {
    type V = Seq<char>;

    closed spec fn view(&self) -> Seq<char> {
        self.raw_email@
    }
}

impl Clone for Email {
    fn clone(&self) -> (copy: Self)
        ensures
            copy == *self,
    {
        proof {
            use_type_invariant(self);
        }
        Email { raw_email: self.raw_email.clone() }
    }
}

impl Email {
    /// Every address has passed the validator.
    #[verifier::type_invariant]
    closed spec fn well_formed(self) -> bool {
        email_syntax(self.raw_email@)
    }

    /// Validates `text` and keeps it, unchanged, as an address.
    pub fn from_str(text: &str) -> (made: Result<Email, EmailError>)
        ensures
            made is Ok <==> email_syntax(text@),
            made matches Ok(email) ==> email@ == text@,
            made matches Err(EmailError::Invalid { raw_email }) ==> raw_email@ == text@,
    {
        let valid = is_valid_email(text);
        Email::from_checked(text, valid)
    }

    /// Keeps `text` as an address where the validator's answer, `valid`, was
    /// yes, and hands it back in the error where it was no.
    pub fn from_checked(text: &str, valid: bool) -> (made: Result<Email, EmailError>)
        requires
            valid == email_syntax(text@),
        ensures
            made is Ok <==> valid,
            made matches Ok(email) ==> email@ == text@,
            made matches Err(EmailError::Invalid { raw_email }) ==> raw_email@ == text@,
    {
        let raw_email = text.to_owned();
        if valid {
            Ok(Email { raw_email })
        } else {
            Err(EmailError::Invalid { raw_email })
        }
    }

    /// The address as text.
    pub fn as_str(&self) -> (text: &str)
        ensures
            text@ == self@,
            email_syntax(text@),
    {
        proof {
            use_type_invariant(self);
        }
        self.raw_email.as_str()
    }
}

/// Why a request body could not be decoded.
#[derive(Clone, Copy, Debug, PartialEq, Eq, Structural)]
pub enum DecodeFailure {
    /// The address is missing, or is no valid address.
    InvalidEmail,
    /// The body is no JSON, or lacks the code.
    Malformed,
}

/// The body of `POST /send-email`.
#[derive(Debug, Clone, PartialEq, Eq)]
pub struct EmailRequest {
    pub email: Email,
    /// The verification code; passed on as it is.
    pub code: String,
}

impl EmailRequest {
    /// Makes the request from the two fields of the JSON body, each `None`
    /// where the body lacks it. The address is looked at first.
    pub fn from_fields(email: Option<String>, code: Option<String>) -> (decoded: Result<
        EmailRequest,
        DecodeFailure,
    >)
        ensures
            match decoded {
                Ok(request) => {
                    &&& email matches Some(address)
                    &&& email_syntax(address@)
                    &&& request.email@ == address@
                    &&& code == Some(request.code)
                },
                Err(failure) => if email is Some && email_syntax(email->0@) {
                    code is None && failure == DecodeFailure::Malformed
                } else {
                    failure == DecodeFailure::InvalidEmail
                },
            },
    {
        let email = match email {
            Some(address) => match Email::from_str(address.as_str()) {
                Ok(email) => email,
                Err(_) => return Err(DecodeFailure::InvalidEmail),
            },
            None => return Err(DecodeFailure::InvalidEmail),
        };
        match code {
            Some(code) => Ok(EmailRequest { email, code }),
            None => Err(DecodeFailure::Malformed),
        }
    }
}

/// The JSON body of every answer to `POST /send-email`.
#[derive(Debug, Clone, PartialEq, Eq)]
pub struct EmailResponse {
    pub success: bool,
    pub message: String,
}

} // verus!
