//! Reading an identifier out of the text of a string literal.

use vstd::prelude::*;

use crate::syntax::StrLit;

verus! {

/// Calls `syn::parse_str::<syn::Ident>`, which turns the text into tokens
/// and accepts it if the tokens are a single identifier that is no keyword,
/// and hands back the identifier as it prints.
///
/// Nothing is proved of this function, and its contract claims nothing of
/// what it returns: the text is taken apart by the compiler where the
/// process expands a macro and by `proc-macro2` elsewhere, and the two need
/// not agree on every text. What is done with the outcome is verified for
/// every outcome.
#[verifier::external_body]
pub(crate) fn parse_ident(text: &str) -> (r: Option<String>) {
    match syn::parse_str::<syn::Ident>(text) {
        Ok(id) => Some(id.to_string()),
        Err(_) => None,
    }
}

/// The text of a string that may be absent.
pub open spec fn text_of(s: Option<String>) -> Option<Seq<char>> {
    match s {
        Some(s) => Some(s@),
        None => None,
    }
}

impl StrLit {
    /// The text that is handed to the parser of identifiers: the value of
    /// the literal, if the literal has no suffix.
    pub fn text(&self) -> (r: Option<&str>)
        ensures
            match r {
                Some(text) => self.suffix@.len() == 0 && text@ == self.value@,
                None => self.suffix@.len() > 0,
            },
    {
        if self.suffix.as_str().is_empty() {
            Some(self.value.as_str())
        } else {
            None
        }
    }

    /// Parse the content of the string literal as an identifier. A literal
    /// with a suffix holds none; of any other literal the parser decides,
    /// which is given the text of [`StrLit::text`].
    pub fn parse(&self) -> (r: Option<String>)
        ensures
            self.suffix@.len() > 0 ==> r is None,
    {
        match self.text() {
            Some(text) => parse_ident(text),
            None => None,
        }
    }
}

} // verus!
