use secrecy::ExposeSecret;
use vstd::prelude::*;

verus! {

/// A string that must not leak into logs or debug output.
///
/// The text is held by a `secrecy::Secret<String>`, which wipes it from memory
/// when it is dropped and prints a redaction marker in place of the text.
/// The type is generic over a trait that the verifier does not know, so the
/// field is kept behind an opaque struct and described by [`secret_text`].
#[verifier::external_body]
#[derive(Debug)]
pub struct Secret {
    inner: secrecy::Secret<String>,
}

/// The text that a secret guards.
pub uninterp spec fn secret_text(s: Secret) -> Seq<char>;

impl View for Secret {
    type V = Seq<char>;

    open spec fn view(&self) -> Seq<char> {
        secret_text(*self)
    }
}

/// `secrecy::Secret::new`: the new secret guards exactly the given string.
#[verifier::external_body]
fn seal(text: String) -> (s: Secret)
    ensures
        secret_text(s) == text@,
{
    Secret { inner: secrecy::Secret::new(text) }
}

/// `secrecy::ExposeSecret::expose_secret`: a reference to the guarded string.
#[verifier::external_body]
fn unseal(s: &Secret) -> (text: &String)
    ensures
        text@ == secret_text(*s),
{
    s.inner.expose_secret()
}

/// `Clone` of `secrecy::Secret<String>`: the copy guards a copy of the same text.
#[verifier::external_body]
fn reseal(s: &Secret) -> (copy: Secret)
    ensures
        secret_text(copy) == secret_text(*s),
{
    Secret { inner: s.inner.clone() }
}

impl Secret {
    /// Wraps `text`; from here on it is reachable only through
    /// [`Secret::expose_secret`].
    pub fn new(text: String) -> (s: Secret)
        ensures
            s@ == text@,
    {
        seal(text)
    }

    /// The one accessor of the guarded text.
    pub fn expose_secret(&self) -> (text: &String)
        ensures
            text@ == self@,
    {
        unseal(self)
    }
}

impl Clone for Secret {
    fn clone(&self) -> (copy: Secret)
        ensures
            copy@ == self@,
    {
        reseal(self)
    }
}

} // verus!
