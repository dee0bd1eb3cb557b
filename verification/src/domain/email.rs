use crate::domain::secret::Secret;
use vstd::prelude::*;
use vstd::std_specs::cmp::PartialEqSpecImpl;
use vstd::string::*;

verus! {

/// Whether `validator::validate_email` accepts `text` as an e-mail address
/// (the HTML5 rule for the local part, a host name, an internationalised
/// host name or an address literal for the domain).
pub uninterp spec fn email_is_valid(text: Seq<char>) -> bool;

/// `validator::validate_email`: the verdict is a function of the text alone;
/// an empty text and a text without `@` are always refused.
#[verifier::external_body]
fn validate_email(text: &str) -> (ok: bool)
    ensures
        ok == email_is_valid(text@),
        ok ==> text@.len() > 0 && text@.contains('@'),
{
    validator::validate_email(text)
}

/// A login handle that has passed e-mail format validation.
#[derive(Debug)]
pub struct Email {
    inner: Secret,
}

/// The text that [`Email::parse`] refused.
#[derive(Debug)]
pub struct EmailError {
    rejected: String,
}

impl View for EmailError {
    type V = Seq<char>;

    closed spec fn view(&self) -> Seq<char> {
        self.rejected@
    }
}

pub open spec fn email_error_suffix() -> Seq<char> {
    " is not a valid email."@
}

impl EmailError {
    /// The message for the caller: the refused text, then
    /// `" is not a valid email."`.
    pub fn to_string(&self) -> (message: String)
        ensures
            message@ == self@ + email_error_suffix(),
    {
        self.rejected.clone().concat(" is not a valid email.")
    }
}

impl View for Email {
    type V = Seq<char>;

    closed spec fn view(&self) -> Seq<char> {
        self.inner@
    }
}

impl Email {
    #[verifier::type_invariant]
    spec fn well_formed(self) -> bool {
        email_is_valid(self.inner@)
    }

    /// Accepts `s` exactly when it is a valid e-mail address, and keeps the
    /// text as it was given.
    pub fn parse(s: Secret) -> (parsed: Result<Email, EmailError>)
        ensures
            match parsed {
                Ok(email) => email_is_valid(s@) && email@ == s@,
                Err(e) => !email_is_valid(s@) && e@ == s@,
            },
    {
        if validate_email(s.expose_secret().as_str()) {
            Ok(Email { inner: s })
        } else {
            Err(EmailError { rejected: s.expose_secret().clone() })
        }
    }

    /// The validated text, still guarded.
    pub fn as_ref(&self) -> (secret: &Secret)
        ensures
            secret@ == self@,
            email_is_valid(self@),
    {
        proof {
            use_type_invariant(self);
        }
        &self.inner
    }
}

impl Clone for Email {
    fn clone(&self) -> (copy: Email)
        ensures
            copy@ == self@,
    {
        proof {
            use_type_invariant(self);
        }
        Email { inner: self.inner.clone() }
    }
}

impl PartialEq for Email {
    fn eq(&self, other: &Email) -> (same: bool) {
        *self.inner.expose_secret() == *other.inner.expose_secret()
    }
}

impl Eq for Email {

}

impl PartialEqSpecImpl for Email {
    open spec fn obeys_eq_spec() -> bool {
        true
    }

    open spec fn eq_spec(&self, other: &Email) -> bool {
        self@ == other@
    }
}

} // verus!
