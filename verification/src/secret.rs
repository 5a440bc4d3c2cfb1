//! Strings that are kept out of logs and wiped from memory.
use secrecy::{ExposeSecret, SecretBox};
use vstd::prelude::*;

verus! {

/// A string that is kept out of logs and wiped from memory when dropped.
///
/// The text lives in a `secrecy::SecretBox<String>`. That type is bound by
/// the `Zeroize` trait, which Verus does not know, so Verus is not shown the
/// inside of this struct: all it knows of a secret is the text that
/// `secret_text` names, through the two functions below.
#[verifier::external_body]
pub struct Secret {
    inner: SecretBox<String>,
}

/// The text that a secret holds: what it was made of, and what exposing it
/// shows.
pub uninterp spec fn secret_text(secret: Secret) -> Seq<char>;

impl View for Secret {
    type V = Seq<char>;

    open spec fn view(&self) -> Seq<char> {
        secret_text(*self)
    }
}

/// `ExposeSecret::expose_secret` of `SecretBox`: a reference to the string
/// inside the box.
#[verifier::external_body]
fn expose(secret: &Secret) -> (text: &String)
    ensures
        text@ == secret_text(*secret),
{
    secret.inner.expose_secret()
}

/// `SecretBox::new`, on the string in a `Box`: a secret that holds the given
/// string.
#[verifier::external_body]
fn seal(text: String) -> (secret: Secret)
    ensures
        secret_text(secret) == text@,
{
    Secret { inner: SecretBox::new(Box::new(text)) }
}

impl Secret {
    /// Seals a text.
    pub fn new(text: String) -> (secret: Secret)
        ensures
            secret@ == text@,
    {
        seal(text)
    }

    /// The text, for the one who has to read it.
    pub fn expose_secret(&self) -> (text: &String)
        ensures
            text@ == self@,
    {
        expose(self)
    }
}

} // verus!
