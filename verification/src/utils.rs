//! Reading a declaration: the shape of a field's type, the attribute that
//! asks for a one-at-a-time setter, and the grammar of its arguments.

use vstd::prelude::*;

use crate::error::ClauseError;
use crate::syntax::{
    ArgumentsModel, Attribute, Field, GenericArgModel, GenericArgument, Meta, Path, PathArguments,
    PathModel, StrLit, Token, TypeExpr, TypeModel,
};

verus! {

/// The argument `T` of a type written `target<T>`: a path of one segment
/// named `target` with exactly one generic argument, which is a type.
/// Any other type has none.
pub open spec fn single_arg(ty: TypeModel, target: Seq<char>) -> Option<TypeModel> {
    match ty {
        TypeModel::Path(path) => {
            if path.segments.len() == 1 && path.segments[0].ident == target {
                match path.segments[0].arguments {
                    ArgumentsModel::AngleBracketed(args) => {
                        if args.len() == 1 {
                            match args[0] {
                                GenericArgModel::Type(inner) => Some(inner),
                                GenericArgModel::Other(_) => None,
                            }
                        } else {
                            None
                        }
                    },
                    _ => None,
                }
            } else {
                None
            }
        },
        TypeModel::Other(_) => None,
    }
}

/// Check if `ty` is a generic type with a single argument, `target<T>`. If
/// so, return the argument type `T`. Otherwise, return `None`.
pub fn single_arg_generic_type<'t>(ty: &'t TypeExpr, target: &'static str) -> (r: Option<
    &'t TypeExpr,
>)
    ensures
        match r {
            Some(inner) => single_arg(ty@, target@) == Some(inner@),
            None => single_arg(ty@, target@) is None,
        },
{
    if let TypeExpr::Path(path) = ty {
        if path.segments.len() == 1 {
            let seg = &path.segments[0];
            if seg.ident == target.to_owned() {
                if let PathArguments::AngleBracketed(args) = &seg.arguments {
                    if args.len() == 1 {
                        if let GenericArgument::Type(inner) = &args[0] {
                            return Some(inner);
                        }
                    }
                }
            }
        }
    }
    None
}

/// Whether a path is the single word `name`: no leading `::`, one segment
/// without arguments, named `name`.
pub open spec fn is_ident(path: PathModel, name: Seq<char>) -> bool {
    &&& !path.leading_colon
    &&& path.segments.len() == 1
    &&& path.segments[0].arguments is Bare
    &&& path.segments[0].ident == name
}

impl Path {
    /// Whether this path is the single word `name`.
    pub fn is_ident(&self, name: &str) -> (r: bool)
        ensures
            r == is_ident(self@, name@),
    {
        if self.leading_colon || self.segments.len() != 1 {
            return false;
        }
        let seg = &self.segments[0];
        match &seg.arguments {
            PathArguments::Bare => seg.ident == name.to_owned(),
            _ => false,
        }
    }
}

/// The first attribute with the path `builder`, if there is one.
pub open spec fn builder_attr(attrs: Seq<Attribute>) -> Option<Attribute>
    decreases attrs.len(),
{
    if attrs.len() == 0 {
        None
    } else if is_ident(attrs[0].path@, "builder"@) {
        Some(attrs[0])
    } else {
        builder_attr(attrs.drop_first())
    }
}

/// Check if the field has an attribute with the path `builder`, like
/// `#[builder(...)]`, and return the first one.
pub fn has_builder_attr(field: &Field) -> (r: Option<&Attribute>)
    ensures
        match r {
            Some(attr) => builder_attr(field.attrs@) == Some(*attr),
            None => builder_attr(field.attrs@) is None,
        },
{
    let mut i: usize = 0;
    assert(field.attrs@.skip(0) =~= field.attrs@);
    while i < field.attrs.len()
        invariant
            i <= field.attrs.len(),
            builder_attr(field.attrs@) == builder_attr(field.attrs@.skip(i as int)),
        decreases field.attrs.len() - i,
    {
        let attr = &field.attrs[i];
        if attr.path.is_ident("builder") {
            return Some(attr);
        }
        assert(field.attrs@.skip(i as int).drop_first() =~= field.attrs@.skip(i as int + 1));
        i += 1;
    }
    None
}

/// The string literal of the arguments `each = "..."`, or what keeps the
/// tokens from being such arguments: the first of the three that is not in
/// its place, or a token behind them.
pub open spec fn each_clause(tokens: Seq<Token>) -> Result<StrLit, ClauseError> {
    if tokens.len() < 1 || !(tokens[0] matches Token::Ident(word) && word@ == "each"@) {
        Err(ClauseError::ExpectedEach)
    } else if tokens.len() < 2 || tokens[1] != Token::Punct('=') {
        Err(ClauseError::ExpectedEquals)
    } else if tokens.len() < 3 || !(tokens[2] is Str) {
        Err(ClauseError::ExpectedString)
    } else if tokens.len() > 3 {
        Err(ClauseError::UnexpectedToken)
    } else {
        Ok(tokens[2]->Str_0)
    }
}

/// Parse the arguments of a `builder` attribute, expecting the syntax
/// `each = "XYZ"` and nothing else. Return the string literal `"XYZ"` if the
/// input is valid.
pub fn parse_builder_attr_arg(input: &Vec<Token>) -> (r: Result<&StrLit, ClauseError>)
    ensures
        match r {
            Ok(lit) => each_clause(input@) == Ok::<StrLit, ClauseError>(*lit),
            Err(e) => each_clause(input@) == Err::<StrLit, ClauseError>(e),
        },
{
    if input.len() < 1 {
        return Err(ClauseError::ExpectedEach);
    }
    match &input[0] {
        Token::Ident(word) => {
            if !(*word == "each".to_owned()) {
                return Err(ClauseError::ExpectedEach);
            }
        },
        _ => {
            return Err(ClauseError::ExpectedEach);
        },
    }
    if input.len() < 2 {
        return Err(ClauseError::ExpectedEquals);
    }
    match &input[1] {
        Token::Punct(c) => {
            if *c != '=' {
                return Err(ClauseError::ExpectedEquals);
            }
        },
        _ => {
            return Err(ClauseError::ExpectedEquals);
        },
    }
    if input.len() < 3 {
        return Err(ClauseError::ExpectedString);
    }
    match &input[2] {
        Token::Str(lit) => {
            if input.len() > 3 {
                Err(ClauseError::UnexpectedToken)
            } else {
                Ok(lit)
            }
        },
        _ => Err(ClauseError::ExpectedString),
    }
}

impl Attribute {
    /// The string literal that the attribute's arguments name, or why they
    /// name none.
    pub open spec fn alias_literal(self) -> Result<StrLit, ClauseError> {
        match self.meta {
            Meta::Path => Err(ClauseError::MissingArguments),
            Meta::List(tokens) => each_clause(tokens@),
            Meta::NameValue => Err(ClauseError::ExpectedParentheses),
        }
    }

    /// Parse the bracketed arguments of the attribute as `each = "..."`.
    pub fn parse_args(&self) -> (r: Result<&StrLit, ClauseError>)
        ensures
            match r {
                Ok(lit) => self.alias_literal() == Ok::<StrLit, ClauseError>(*lit),
                Err(e) => self.alias_literal() == Err::<StrLit, ClauseError>(e),
            },
    {
        match &self.meta {
            Meta::Path => Err(ClauseError::MissingArguments),
            Meta::List(tokens) => parse_builder_attr_arg(tokens),
            Meta::NameValue => Err(ClauseError::ExpectedParentheses),
        }
    }
}

} // verus!
