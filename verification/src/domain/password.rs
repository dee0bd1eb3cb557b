use crate::domain::secret::Secret;
use vstd::prelude::*;
use vstd::std_specs::cmp::PartialEqSpecImpl;
use vstd::string::*;

verus! {

/// Whether `pattern` is a regular expression that the `regex` crate accepts
/// and that matches somewhere in `text`.
pub uninterp spec fn regex_finds(pattern: Seq<char>, text: Seq<char>) -> bool;

/// `regex::Regex::new`, then `regex::Regex::is_match` on the compiled
/// expression; a pattern that does not compile finds nothing.
#[verifier::external_body]
fn pattern_found(pattern: &str, text: &str) -> (found: bool)
    ensures
        found == regex_finds(pattern@, text@),
{
    match regex::Regex::new(pattern) {
        Ok(expression) => expression.is_match(text),
        Err(_) => false,
    }
}

/// `validator::validate_length` with a lower bound only: the text has at
/// least `min` characters.
#[verifier::external_body]
fn long_enough(text: &str, min: u64) -> (ok: bool)
    ensures
        ok == (text@.len() >= min),
{
    validator::validate_length(text, Some(min), None, None)
}

/// The least number of characters in a password.
pub const MIN_PASSWORD_LENGTH: u64 = 8;

/// Why a text cannot serve as a password.
#[derive(Debug, Clone, Copy, PartialEq, Eq, Structural)]
pub enum PasswordError {
    TooShort,
    MissingUppercase,
    MissingLowercase,
    MissingNumber,
    MissingSpecialChar,
}

impl PasswordError {
    pub open spec fn message(self) -> Seq<char> {
        match self {
            PasswordError::TooShort => "Password must be at least 8 characters long"@,
            PasswordError::MissingUppercase => "Password must contain at least one uppercase letter"@,
            PasswordError::MissingLowercase => "Password must contain at least one lowercase letter"@,
            PasswordError::MissingNumber => "Password must contain at least one number"@,
            PasswordError::MissingSpecialChar => "Password must contain at least one special character"@,
        }
    }

    /// The sentence shown for this error.
    pub fn to_string(&self) -> (message: String)
        ensures
            message@ == self.message(),
    {
        match self {
            PasswordError::TooShort => String::from_str(
                "Password must be at least 8 characters long",
            ),
            PasswordError::MissingUppercase => String::from_str(
                "Password must contain at least one uppercase letter",
            ),
            PasswordError::MissingLowercase => String::from_str(
                "Password must contain at least one lowercase letter",
            ),
            PasswordError::MissingNumber => String::from_str(
                "Password must contain at least one number",
            ),
            PasswordError::MissingSpecialChar => String::from_str(
                "Password must contain at least one special character",
            ),
        }
    }
}

/// The verdict on a password from the outcome of the five checks, in the
/// order in which they are reported: length first, then an upper-case
/// letter, a lower-case letter, a digit, and a character that is neither a
/// letter nor a digit.
pub open spec fn strength_verdict(
    long_enough: bool,
    upper: bool,
    lower: bool,
    digit: bool,
    special: bool,
) -> Result<(), PasswordError> {
    if !long_enough {
        Err(PasswordError::TooShort)
    } else if !upper {
        Err(PasswordError::MissingUppercase)
    } else if !lower {
        Err(PasswordError::MissingLowercase)
    } else if !digit {
        Err(PasswordError::MissingNumber)
    } else if !special {
        Err(PasswordError::MissingSpecialChar)
    } else {
        Ok(())
    }
}

/// The verdict on `text` as a password.
pub open spec fn password_verdict(text: Seq<char>) -> Result<(), PasswordError> {
    strength_verdict(
        text.len() >= MIN_PASSWORD_LENGTH,
        regex_finds("[A-Z]"@, text),
        regex_finds("[a-z]"@, text),
        regex_finds("\\d"@, text),
        regex_finds("[^a-zA-Z0-9]"@, text),
    )
}

/// A password as the user typed it, or a stored password hash.
#[derive(Debug)]
pub struct Password {
    inner: Secret,
}

impl View for Password {
    type V = Seq<char>;

    closed spec fn view(&self) -> Seq<char> {
        self.inner@
    }
}

impl Password {
    /// Accepts `s` exactly when it passes the five strength checks, and
    /// names the first check that fails otherwise.
    pub fn parse(s: Secret) -> (parsed: Result<Password, PasswordError>)
        ensures
            match parsed {
                Ok(password) => password_verdict(s@) is Ok && password@ == s@,
                Err(e) => password_verdict(s@) == Err::<(), PasswordError>(e),
            },
    {
        match Self::validate_password(&s) {
            Ok(()) => Ok(Password { inner: s }),
            Err(e) => Err(e),
        }
    }

    /// Runs the checks on the guarded text. A check that already failed
    /// spares the later ones.
    fn validate_password(s: &Secret) -> (verdict: Result<(), PasswordError>)
        ensures
            verdict == password_verdict(s@),
    {
        let text = s.expose_secret().as_str();
        if !long_enough(text, MIN_PASSWORD_LENGTH) {
            return Err(PasswordError::TooShort);
        }
        let upper = pattern_found("[A-Z]", text);
        if !upper {
            return Err(PasswordError::MissingUppercase);
        }
        let lower = pattern_found("[a-z]", text);
        if !lower {
            return Err(PasswordError::MissingLowercase);
        }
        let digit = pattern_found("\\d", text);
        if !digit {
            return Err(PasswordError::MissingNumber);
        }
        let special = pattern_found("[^a-zA-Z0-9]", text);
        Self::judge(true, upper, lower, digit, special)
    }

    /// The verdict from the outcome of the five checks.
    pub fn judge(long_enough: bool, upper: bool, lower: bool, digit: bool, special: bool) -> (verdict:
        Result<(), PasswordError>)
        ensures
            verdict == strength_verdict(long_enough, upper, lower, digit, special),
    {
        if !long_enough {
            Err(PasswordError::TooShort)
        } else if !upper {
            Err(PasswordError::MissingUppercase)
        } else if !lower {
            Err(PasswordError::MissingLowercase)
        } else if !digit {
            Err(PasswordError::MissingNumber)
        } else if !special {
            Err(PasswordError::MissingSpecialChar)
        } else {
            Ok(())
        }
    }

    /// Wraps a stored hash; no strength check applies to it.
    pub fn from_hash(hash: String) -> (password: Password)
        ensures
            password@ == hash@,
    {
        Password { inner: Secret::new(hash) }
    }

    /// A copy of the guarded text.
    pub fn to_hash(&self) -> (hash: String)
        ensures
            hash@ == self@,
    {
        self.inner.expose_secret().clone()
    }

    /// The text, still guarded.
    pub fn as_ref(&self) -> (secret: &Secret)
        ensures
            secret@ == self@,
    {
        &self.inner
    }
}

impl Clone for Password {
    fn clone(&self) -> (copy: Password)
        ensures
            copy@ == self@,
    {
        Password { inner: self.inner.clone() }
    }
}

impl PartialEq for Password {
    fn eq(&self, other: &Password) -> (same: bool) {
        *self.inner.expose_secret() == *other.inner.expose_secret()
    }
}

impl PartialEqSpecImpl for Password {
    open spec fn obeys_eq_spec() -> bool {
        true
    }

    open spec fn eq_spec(&self, other: &Password) -> bool {
        self@ == other@
    }
}

} // verus!
