use crate::domain::recaptcha::{
    RecaptchaError, RecaptchaToken, RecaptchaVerifyRequest, RecaptchaVerifyResponse,
};
use vstd::prelude::*;
use vstd::string::*;

verus! {

/// A check that a request comes from a person. The answer is the
/// collaborator's own: nothing is promised of it here.
pub trait RecaptchaService {
    fn verify_token(&self, token: &RecaptchaToken, user_ip: Option<String>) -> Result<
        (),
        RecaptchaError,
    >;
}

/// Where the hosted verification service takes its requests.
pub open spec fn siteverify_url() -> Seq<char> {
    "https://www.google.com/recaptcha/api/siteverify"@
}

/// The address of the hosted verification service.
pub fn siteverify_endpoint() -> (url: &'static str)
    ensures
        url@ == siteverify_url(),
{
    "https://www.google.com/recaptcha/api/siteverify"
}

/// The form to post for `token`: the service's secret, the token's text and
/// the client's address where it is known.
pub fn siteverify_request(secret_key: &str, token: &RecaptchaToken, user_ip: Option<String>) -> (request:
    RecaptchaVerifyRequest)
    ensures
        request.secret@ == secret_key@,
        request.response@ == token@,
        request.remoteip == user_ip,
{
    RecaptchaVerifyRequest {
        secret: String::from_str(secret_key),
        response: String::from_str(token.as_str()),
        remoteip: user_ip,
    }
}

/// Whether `code` is among `codes`.
pub open spec fn lists_code(codes: Seq<String>, code: Seq<char>) -> bool {
    exists|i: int| 0 <= i < codes.len() && (#[trigger] codes[i])@ == code
}

/// Whether `code` is among `codes`.
pub fn has_code(codes: &Vec<String>, code: &str) -> (found: bool)
    ensures
        found == lists_code(codes@, code@),
{
    let wanted = String::from_str(code);
    let mut i: usize = 0;
    while i < codes.len()
        invariant
            i <= codes.len(),
            wanted@ == code@,
            forall|j: int| 0 <= j < i ==> (#[trigger] codes@[j])@ != code@,
        decreases codes.len() - i,
    {
        if codes[i] == wanted {
            return true;
        }
        i += 1;
    }
    false
}

/// What an answer of the verification service means: success, or the most
/// specific error that its codes name. A wrong secret outranks a wrong
/// token; an answer without either code is a plain failure.
pub open spec fn answer_verdict(answer: RecaptchaVerifyResponse) -> Result<(), RecaptchaError> {
    if answer.success {
        Ok(())
    } else if answer.error_codes matches Some(codes) && lists_code(
        codes@,
        "invalid-input-secret"@,
    ) {
        Err(RecaptchaError::InvalidSecret)
    } else if answer.error_codes matches Some(codes) && lists_code(
        codes@,
        "invalid-input-response"@,
    ) {
        Err(RecaptchaError::InvalidToken)
    } else {
        Err(RecaptchaError::VerificationFailed)
    }
}

impl RecaptchaVerifyResponse {
    /// What this answer means for the request that asked.
    pub fn verdict(&self) -> (verdict: Result<(), RecaptchaError>)
        ensures
            verdict == answer_verdict(*self),
    {
        if self.success {
            return Ok(());
        }
        match &self.error_codes {
            Some(codes) => {
                if has_code(codes, "invalid-input-secret") {
                    return Err(RecaptchaError::InvalidSecret);
                }
                if has_code(codes, "invalid-input-response") {
                    return Err(RecaptchaError::InvalidToken);
                }
            },
            None => {},
        }
        Err(RecaptchaError::VerificationFailed)
    }
}

/// How an exchange with the verification service ended.
#[derive(Debug, Clone)]
pub enum SiteverifyReply {
    /// The request could not be delivered, or no answer came back.
    Unreachable,
    /// An answer came that could not be read as one.
    Unreadable,
    /// The service's answer.
    Answer(RecaptchaVerifyResponse),
}

pub open spec fn reply_verdict(reply: SiteverifyReply) -> Result<(), RecaptchaError> {
    match reply {
        SiteverifyReply::Unreachable => Err(RecaptchaError::NetworkError),
        SiteverifyReply::Unreadable => Err(RecaptchaError::UnexpectedError),
        SiteverifyReply::Answer(answer) => answer_verdict(answer),
    }
}

impl SiteverifyReply {
    /// The outcome of the verification, whatever happened on the way.
    pub fn verdict(&self) -> (verdict: Result<(), RecaptchaError>)
        ensures
            verdict == reply_verdict(*self),
    {
        match self {
            SiteverifyReply::Unreachable => Err(RecaptchaError::NetworkError),
            SiteverifyReply::Unreadable => Err(RecaptchaError::UnexpectedError),
            SiteverifyReply::Answer(answer) => answer.verdict(),
        }
    }
}

/// A stand-in that gives every token the same answer.
pub struct MockRecaptchaService {
    should_succeed: bool,
}

impl MockRecaptchaService {
    pub closed spec fn succeeds(&self) -> bool {
        self.should_succeed
    }

    pub fn new(should_succeed: bool) -> (service: MockRecaptchaService)
        ensures
            service.succeeds() == should_succeed,
    {
        MockRecaptchaService { should_succeed }
    }
}

impl RecaptchaService for MockRecaptchaService {
    fn verify_token(&self, token: &RecaptchaToken, user_ip: Option<String>) -> (outcome: Result<
        (),
        RecaptchaError,
    >)
        ensures
            outcome == if self.succeeds() {
                Ok::<(), RecaptchaError>(())
            } else {
                Err::<(), RecaptchaError>(RecaptchaError::VerificationFailed)
            },
    {
        if self.should_succeed {
            Ok(())
        } else {
            Err(RecaptchaError::VerificationFailed)
        }
    }
}

} // verus!
