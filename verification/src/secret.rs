//! Secret text: values that are wiped from memory when they are dropped and
//! never show up in debug output.

use secrecy::zeroize::Zeroize;
use secrecy::ExposeSecret;
use vstd::prelude::*;

use crate::text;

verus! {

/// A secret string: the text inside a `secrecy::SecretString`.
///
/// The box wipes its memory when it is dropped, and its `Debug` output is
/// redacted. Neither can be said over the text that the secret holds, so no
/// contract here speaks of them.
#[verifier::external_body]
#[derive(Debug)]
pub struct SecretString {
    inner: secrecy::SecretString,
}

/// The text that a secret holds.
pub uninterp spec fn secret_text(secret: SecretString) -> Seq<char>;

/// `<secrecy::SecretString as From<&str>>::from`: the new secret holds a copy
/// of `plain`.
#[verifier::external_body]
fn secret_from_str(plain: &str) -> (secret: SecretString)
    ensures
        secret_text(secret) == plain@,
{
    SecretString { inner: secrecy::SecretString::from(plain) }
}

/// `<secrecy::SecretString as From<String>>::from`: the new secret holds the
/// text of `plain`, which it takes over.
#[verifier::external_body]
fn secret_from_string(plain: String) -> (secret: SecretString)
    ensures
        secret_text(secret) == plain@,
{
    SecretString { inner: secrecy::SecretString::from(plain) }
}

/// `<secrecy::SecretString as ExposeSecret<str>>::expose_secret`: lends out
/// the text that the secret holds.
#[verifier::external_body]
fn secret_exposed(secret: &SecretString) -> (plain: &str)
    ensures
        plain@ == secret_text(*secret),
{
    secret.inner.expose_secret()
}

/// `<secrecy::SecretString as Clone>::clone`: the copy holds the same text.
#[verifier::external_body]
fn secret_cloned(secret: &SecretString) -> (copy: SecretString)
    ensures
        secret_text(copy) == secret_text(*secret),
{
    SecretString { inner: secret.inner.clone() }
}

/// `<String as secrecy::zeroize::Zeroize>::zeroize`: leaves the string empty.
///
/// The call also overwrites the bytes that the string held, up to its
/// capacity, before it gives up its length. Memory behind the length is not
/// part of a string's text, so the contract speaks of the length alone.
#[verifier::external_body]
fn wipe(plain: &mut String)
    ensures
        final(plain)@ == Seq::<char>::empty(),
{
    plain.zeroize()
}

impl View for SecretString {
    type V = Seq<char>;

    open spec fn view(&self) -> Seq<char> {
        secret_text(*self)
    }
}

impl SecretString {
    /// A secret that holds a copy of `plain`.
    pub fn from_plain(plain: &str) -> (secret: SecretString)
        ensures
            secret@ == plain@,
    {
        secret_from_str(plain)
    }

    /// A secret that takes over the text of `plain`.
    pub fn from_owned(plain: String) -> (secret: SecretString)
        ensures
            secret@ == plain@,
    {
        secret_from_string(plain)
    }

    /// The text of the secret.
    pub fn expose_secret(&self) -> (plain: &str)
        ensures
            plain@ == self@,
    {
        secret_exposed(self)
    }
}

impl Clone for SecretString {
    fn clone(&self) -> (copy: SecretString)
        ensures
            copy@ == self@,
    {
        secret_cloned(self)
    }
}

/// Moves plain text into a secret and wipes the plain copy.
pub fn seal(plain: &mut String) -> (secret: SecretString)
    ensures
        secret@ == old(plain)@,
        final(plain)@ == Seq::<char>::empty(),
{
    let secret = secret_from_str(plain.as_str());
    wipe(plain);
    secret
}

/// Moves plain text, less the white space around it, into a secret and wipes
/// the plain copy.
pub fn seal_trimmed(plain: &mut String) -> (secret: SecretString)
    ensures
        secret@ == text::trimmed(old(plain)@),
        final(plain)@ == Seq::<char>::empty(),
{
    let secret = secret_from_str(text::trim(plain.as_str()));
    wipe(plain);
    secret
}

} // verus!
