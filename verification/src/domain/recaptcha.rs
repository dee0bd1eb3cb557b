use vstd::prelude::*;
use vstd::std_specs::cmp::PartialEqSpecImpl;
use crate::utils::text::{blank, is_blank};
use vstd::string::*;

verus! {

/// The token that a client obtained from the human-verification widget.
#[derive(Debug)]
pub struct RecaptchaToken {
    inner: String,
}

impl View for RecaptchaToken {
    type V = Seq<char>;

    closed spec fn view(&self) -> Seq<char> {
        self.inner@
    }
}

#[derive(Debug, Clone, Copy, PartialEq, Eq, Structural)]
pub enum RecaptchaTokenError {
    EmptyToken,
}

impl RecaptchaToken {
    #[verifier::type_invariant]
    spec fn well_formed(self) -> bool {
        !is_blank(self.inner@)
    }

    /// Accepts every token that holds more than white space, unchanged.
    pub fn new(token: String) -> (made: Result<RecaptchaToken, RecaptchaTokenError>)
        ensures
            match made {
                Ok(t) => !is_blank(token@) && t@ == token@,
                Err(e) => is_blank(token@) && e == RecaptchaTokenError::EmptyToken,
            },
    {
        if blank(token.as_str()) {
            return Err(RecaptchaTokenError::EmptyToken);
        }
        Ok(RecaptchaToken { inner: token })
    }

    /// The token's text, which is never blank.
    pub fn as_str(&self) -> (text: &str)
        ensures
            text@ == self@,
            !is_blank(self@),
    {
        proof {
            use_type_invariant(self);
        }
        self.inner.as_str()
    }
}

impl Clone for RecaptchaToken {
    fn clone(&self) -> (copy: RecaptchaToken)
        ensures
            copy@ == self@,
    {
        proof {
            use_type_invariant(self);
        }
        RecaptchaToken { inner: self.inner.clone() }
    }
}

impl PartialEq for RecaptchaToken {
    fn eq(&self, other: &RecaptchaToken) -> (same: bool) {
        self.inner == other.inner
    }
}

impl PartialEqSpecImpl for RecaptchaToken {
    open spec fn obeys_eq_spec() -> bool {
        true
    }

    open spec fn eq_spec(&self, other: &RecaptchaToken) -> bool {
        self@ == other@
    }
}

/// What is posted to the verification service.
#[derive(Debug, Clone)]
pub struct RecaptchaVerifyRequest {
    pub secret: String,
    pub response: String,
    pub remoteip: Option<String>,
}

/// What the verification service answers.
#[derive(Debug, Clone)]
pub struct RecaptchaVerifyResponse {
    pub success: bool,
    pub challenge_timestamp: Option<String>,
    pub hostname: Option<String>,
    pub error_codes: Option<Vec<String>>,
}

#[derive(Debug, Clone, Copy, PartialEq, Eq, Structural)]
pub enum RecaptchaError {
    InvalidToken,
    VerificationFailed,
    NetworkError,
    InvalidSecret,
    UnexpectedError,
}

impl RecaptchaError {
    pub open spec fn message(self) -> Seq<char> {
        match self {
            RecaptchaError::InvalidToken => "Invalid reCAPTCHA token"@,
            RecaptchaError::VerificationFailed => "reCAPTCHA verification failed"@,
            RecaptchaError::NetworkError => "Network error during reCAPTCHA verification"@,
            RecaptchaError::InvalidSecret => "Invalid reCAPTCHA secret"@,
            RecaptchaError::UnexpectedError => "Unexpected error during reCAPTCHA verification"@,
        }
    }

    /// The sentence shown for this error.
    pub fn to_string(&self) -> (message: String)
        ensures
            message@ == self.message(),
    {
        match self {
            RecaptchaError::InvalidToken => String::from_str("Invalid reCAPTCHA token"),
            RecaptchaError::VerificationFailed => String::from_str("reCAPTCHA verification failed"),
            RecaptchaError::NetworkError => String::from_str(
                "Network error during reCAPTCHA verification",
            ),
            RecaptchaError::InvalidSecret => String::from_str("Invalid reCAPTCHA secret"),
            RecaptchaError::UnexpectedError => String::from_str(
                "Unexpected error during reCAPTCHA verification",
            ),
        }
    }
}

} // verus!
