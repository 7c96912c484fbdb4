//! Identifiers, and where they come from.

use vstd::prelude::*;

verus! {

/// The identifier token of `proc_macro2`, opaque here but for the text that it displays.
#[verifier::external_type_specification]
#[verifier::external_body]
pub struct ExIdentToken(proc_macro2::Ident);

/// The characters that an identifier token displays.
pub uninterp spec fn token_text(token: proc_macro2::Ident) -> Seq<char>;

/// Calls `to_string` on a `proc_macro2::Ident`, which goes through the token's `Display`. Claims
/// that the string is determined by the token alone. What the characters are is left unsaid: they
/// are those the token was made from, after `r#` for a raw identifier.
#[verifier::external_body]
fn token_to_string(token: &proc_macro2::Ident) -> (text: String)
    ensures
        text@ == token_text(*token),
{
    token.to_string()
}

/// An identifier: the name of a type, a function, an argument or a field.
#[derive(Debug)]
pub struct Name {
    pub text: String,
}

impl View for Name {
    type V = Seq<char>;

    open spec fn view(&self) -> Seq<char> {
        self.text@
    }
}

impl Name {
    /// The identifier with the given text.
    pub fn new(text: String) -> (name: Name)
        ensures
            name@ == text@,
    {
        Name { text }
    }

    /// The identifier that a token displays.
    pub fn from_token(token: &proc_macro2::Ident) -> (name: Name)
        ensures
            name@ == token_text(*token),
    {
        Name { text: token_to_string(token) }
    }
}

}
