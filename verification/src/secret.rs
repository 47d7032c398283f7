use vstd::prelude::*;

verus! {

/// A string kept in a `secrecy::Secret`, which keeps it out of debug output and
/// wipes it from memory when dropped. Verus cannot declare `secrecy::Secret` itself
/// (its parameter is bound by an outside trait), so the secret is held here, out of
/// Verus's sight; `secret_text` names the string it holds.
#[verifier::external_body]
pub struct SecretText {
    secret: secrecy::Secret<String>,
}

/// The string that a `SecretText` holds.
pub uninterp spec fn secret_text(secret: SecretText) -> Seq<char>;

impl SecretText {
    /// Calls `secrecy::Secret::new`, which takes ownership of `text` and holds it.
    #[verifier::external_body]
    pub fn new(text: String) -> (secret: SecretText)
        ensures
            secret_text(secret) == text@,
    {
        SecretText { secret: secrecy::Secret::new(text) }
    }

    /// Calls `ExposeSecret::expose_secret`, which hands out a reference to the held string.
    #[verifier::external_body]
    pub fn expose_secret(&self) -> (text: &String)
        ensures
            text@ == secret_text(*self),
    {
        secrecy::ExposeSecret::expose_secret(&self.secret)
    }
}

} // verus!
