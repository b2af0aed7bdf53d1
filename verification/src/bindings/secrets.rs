use secrecy::ExposeSecret;
use secrecy::Secret;
use vstd::prelude::*;

verus! {

/// A string kept in a `secrecy::Secret`, which keeps it out of debug output
/// and wipes it from memory when dropped. The verifier does not see inside.
#[verifier::external_body]
#[derive(Debug)]
pub struct SecretString {
    inner: Secret<String>,
}

/// The text that a secret string holds.
pub uninterp spec fn secret_text(secret: SecretString) -> Seq<char>;

impl View for SecretString {
    type V = Seq<char>;

    open spec fn view(&self) -> Seq<char> {
        secret_text(*self)
    }
}

/// `Secret::new`: takes ownership of `text`; the secret holds exactly it.
#[verifier::external_body]
pub(crate) fn new_secret(text: String) -> (secret: SecretString)
    ensures
        secret_text(secret) == text@,
{
    SecretString { inner: Secret::new(text) }
}

/// `ExposeSecret::expose_secret`: a reference to the text the secret holds.
#[verifier::external_body]
pub(crate) fn expose_secret(secret: &SecretString) -> (text: &String)
    ensures
        text@ == secret_text(*secret),
{
    secret.inner.expose_secret()
}

impl SecretString {
    /// Wraps `text` as a secret.
    pub fn new(text: String) -> (secret: SecretString)
        ensures
            secret@ == text@,
    {
        new_secret(text)
    }

    /// The text inside the secret.
    pub fn expose(&self) -> (text: &String)
        ensures
            text@ == self@,
    {
        expose_secret(self)
    }
}

} // verus!
