//! A holder for sensitive text that hands its content out through one
//! explicit accessor only.

use secrecy::ExposeSecret;
use secrecy::SecretBox;
use vstd::prelude::*;

verus! {

/// Sensitive text, such as a credential or a connection string.
///
/// The text lives in a `secrecy::SecretBox`, which wipes it from memory when
/// the holder is dropped and keeps it out of its own `Debug` rendering. The
/// holder has no equality, no ordering and no conversion to text.
#[verifier::external_body]
#[derive(Debug)]
pub struct Secret {
    inner: SecretBox<String>,
}

/// The text that a holder wraps.
pub uninterp spec fn secret_text(secret: Secret) -> Seq<char>;

/// `SecretBox::new` on a boxed string. The box stores the string it is given
/// and nothing else, so the holder wraps exactly `value`.
#[verifier::external_body]
fn seal(value: String) -> (secret: Secret)
    ensures
        secret_text(secret) == value@,
{
    Secret { inner: SecretBox::new(Box::new(value)) }
}

/// `ExposeSecret::expose_secret` of `SecretBox`. It returns a reference to
/// the stored string, so the result is the wrapped text.
#[verifier::external_body]
fn unseal(secret: &Secret) -> (text: &str)
    ensures
        text@ == secret_text(*secret),
{
    secret.inner.expose_secret().as_str()
}

impl View for Secret {
    type V = Seq<char>;

    open spec fn view(&self) -> Seq<char> {
        secret_text(*self)
    }
}

impl Secret {
    /// Wraps `value`.
    pub fn new(value: String) -> (secret: Secret)
        ensures
            secret@ == value@,
    {
        seal(value)
    }

    /// The wrapped text, exactly as it was given to `new`.
    pub fn expose_secret(&self) -> (text: &str)
        ensures
            text@ == self@,
    {
        unseal(self)
    }
}

} // verus!
