//! The two kinds of failure: a declaration that the generator cannot take,
//! and a builder that cannot yet be turned into its record.

use vstd::prelude::*;

verus! {

/// What is wrong with the `#[builder(...)]` attribute of one field.
#[derive(Clone, Copy, Debug, PartialEq, Eq, Structural)]
pub enum ClauseError {
    /// The attribute is the bare word, as in `#[builder]`.
    MissingArguments,
    /// The attribute is given a value, as in `#[builder = "arg"]`, in place
    /// of bracketed arguments.
    ExpectedParentheses,
    /// The arguments do not start with the word `each`.
    ExpectedEach,
    /// No `=` follows `each`.
    ExpectedEquals,
    /// No string literal follows `=`.
    ExpectedString,
    /// Something follows the string literal.
    UnexpectedToken,
    /// The field's type is not `Vec<...>`.
    NotAList,
    /// The string literal does not hold an identifier.
    InvalidAlias,
}

/// A declaration that the generator refuses.
#[derive(Clone, Copy, Debug, PartialEq, Eq, Structural)]
pub enum UsageError {
    /// The declaration is an enum or a union.
    NotAStruct,
    /// The declaration is a struct without named fields.
    UnnamedFields,
    /// The attribute of the field at position `field` is refused.
    Clause { field: usize, error: ClauseError },
}

impl ClauseError {
    /// The text of [`ClauseError::message`].
    pub open spec fn message_text(self) -> Seq<char> {
        match self {
            ClauseError::MissingArguments => {
                "expected attribute arguments in parentheses: #[builder(...)]"@
            },
            ClauseError::ExpectedParentheses => "expected parentheses: #[builder(...)]"@,
            ClauseError::ExpectedEach => "expected `each`"@,
            ClauseError::ExpectedEquals => "expected `=`"@,
            ClauseError::ExpectedString => "expected string literal"@,
            ClauseError::UnexpectedToken => "unexpected token"@,
            ClauseError::NotAList => "expected a field of type `Vec<...>`"@,
            ClauseError::InvalidAlias => "expected identifier"@,
        }
    }

    /// The message for the author of the declaration.
    pub fn message(&self) -> (r: String)
        ensures
            r@ == self.message_text(),
    {
        match self {
            ClauseError::MissingArguments => {
                "expected attribute arguments in parentheses: #[builder(...)]".to_owned()
            },
            ClauseError::ExpectedParentheses => "expected parentheses: #[builder(...)]".to_owned(),
            ClauseError::ExpectedEach => "expected `each`".to_owned(),
            ClauseError::ExpectedEquals => "expected `=`".to_owned(),
            ClauseError::ExpectedString => "expected string literal".to_owned(),
            ClauseError::UnexpectedToken => "unexpected token".to_owned(),
            ClauseError::NotAList => "expected a field of type `Vec<...>`".to_owned(),
            ClauseError::InvalidAlias => "expected identifier".to_owned(),
        }
    }
}

impl UsageError {
    /// The text of [`UsageError::message`].
    pub open spec fn message_text(self) -> Seq<char> {
        match self {
            UsageError::NotAStruct => "Builder macro is allowed only on a struct type"@,
            UsageError::UnnamedFields => "Struct with Builder macro must use named fields"@,
            UsageError::Clause { field, error } => error.message_text(),
        }
    }

    /// The message for the author of the declaration.
    pub fn message(&self) -> (r: String)
        ensures
            r@ == self.message_text(),
    {
        match self {
            UsageError::NotAStruct => "Builder macro is allowed only on a struct type".to_owned(),
            UsageError::UnnamedFields => {
                "Struct with Builder macro must use named fields".to_owned()
            },
            UsageError::Clause { field, error } => error.message(),
        }
    }

    /// The position of the field whose attribute is refused, if the error is
    /// about one field.
    pub fn field(&self) -> (r: Option<usize>)
        ensures
            r == (match *self {
                UsageError::Clause { field, error } => Some(field),
                _ => None,
            }),
    {
        match self {
            UsageError::Clause { field, error } => Some(*field),
            _ => None,
        }
    }
}

/// A builder that lacks a value which its record needs.
#[derive(Clone, Debug, PartialEq, Eq)]
pub struct ConstructionError {
    pub message: String,
}

} // verus!
