//! The declaration that a front end hands over: a record with its fields,
//! their types and their attributes, as plain data.
//!
//! Types are kept as trees only as far as the generator looks into them: a
//! path, its segments and their generic arguments. Everything else is carried
//! as source text and given back unchanged.

use vstd::prelude::*;

verus! {

/// A type expression.
#[derive(Debug, PartialEq, Eq)]
pub enum TypeExpr {
    /// A path without a qualified self type, e.g. `Vec<String>` or
    /// `std::string::String`.
    Path(Path),
    /// Any other type (a reference, a tuple, a grouped or qualified type, ...),
    /// as source text.
    Other(String),
}

/// A path: `::`-separated segments, with or without a leading `::`.
#[derive(Debug, PartialEq, Eq)]
pub struct Path {
    pub leading_colon: bool,
    pub segments: Vec<PathSegment>,
}

/// One segment of a path: a name and what follows it in brackets.
#[derive(Debug, PartialEq, Eq)]
pub struct PathSegment {
    pub ident: String,
    pub arguments: PathArguments,
}

/// What follows the name in a path segment.
#[derive(Debug, PartialEq, Eq)]
pub enum PathArguments {
    /// Nothing, as in `String`.
    Bare,
    /// Generic arguments in angle brackets, as in `Vec<T>`.
    AngleBracketed(Vec<GenericArgument>),
    /// Arguments in round brackets, as in `Fn(A) -> B`, as source text.
    Parenthesized(String),
}

/// One argument between angle brackets.
#[derive(Debug, PartialEq, Eq)]
pub enum GenericArgument {
    /// A type.
    Type(TypeExpr),
    /// A lifetime, a constant, a binding or a bound, as source text.
    Other(String),
}

/// The mathematical value of a [`TypeExpr`].
pub enum TypeModel {
    Path(PathModel),
    Other(Seq<char>),
}

/// The mathematical value of a [`Path`].
pub struct PathModel {
    pub leading_colon: bool,
    pub segments: Seq<SegmentModel>,
}

/// The mathematical value of a [`PathSegment`].
pub struct SegmentModel {
    pub ident: Seq<char>,
    pub arguments: ArgumentsModel,
}

/// The mathematical value of a [`PathArguments`].
pub enum ArgumentsModel {
    Bare,
    AngleBracketed(Seq<GenericArgModel>),
    Parenthesized(Seq<char>),
}

/// The mathematical value of a [`GenericArgument`].
pub enum GenericArgModel {
    Type(TypeModel),
    Other(Seq<char>),
}

pub open spec fn type_model(t: TypeExpr) -> TypeModel
    decreases t,
{
    match t {
        TypeExpr::Path(p) => TypeModel::Path(path_model(p)),
        TypeExpr::Other(s) => TypeModel::Other(s@),
    }
}

pub open spec fn path_model(p: Path) -> PathModel
    decreases p,
{
    PathModel {
        leading_colon: p.leading_colon,
        segments: Seq::new(
            p.segments@.len(),
            |i: int|
                if 0 <= i < p.segments@.len() {
                    segment_model(p.segments@[i])
                } else {
                    arbitrary()
                },
        ),
    }
}

pub open spec fn segment_model(s: PathSegment) -> SegmentModel
    decreases s,
{
    SegmentModel { ident: s.ident@, arguments: arguments_model(s.arguments) }
}

pub open spec fn arguments_model(a: PathArguments) -> ArgumentsModel
    decreases a,
{
    match a {
        PathArguments::Bare => ArgumentsModel::Bare,
        PathArguments::AngleBracketed(args) => ArgumentsModel::AngleBracketed(
            Seq::new(
                args@.len(),
                |i: int|
                    if 0 <= i < args@.len() {
                        generic_arg_model(args@[i])
                    } else {
                        arbitrary()
                    },
            ),
        ),
        PathArguments::Parenthesized(s) => ArgumentsModel::Parenthesized(s@),
    }
}

pub open spec fn generic_arg_model(g: GenericArgument) -> GenericArgModel
    decreases g,
{
    match g {
        GenericArgument::Type(t) => GenericArgModel::Type(type_model(t)),
        GenericArgument::Other(s) => GenericArgModel::Other(s@),
    }
}

impl View for TypeExpr {
    type V = TypeModel;

    open spec fn view(&self) -> TypeModel {
        type_model(*self)
    }
}

impl View for Path {
    type V = PathModel;

    open spec fn view(&self) -> PathModel {
        path_model(*self)
    }
}

impl View for PathSegment {
    type V = SegmentModel;

    open spec fn view(&self) -> SegmentModel {
        segment_model(*self)
    }
}

impl View for PathArguments {
    type V = ArgumentsModel;

    open spec fn view(&self) -> ArgumentsModel {
        arguments_model(*self)
    }
}

impl View for GenericArgument {
    type V = GenericArgModel;

    open spec fn view(&self) -> GenericArgModel {
        generic_arg_model(*self)
    }
}

impl Clone for TypeExpr {
    fn clone(&self) -> (r: Self)
        ensures
            r@ == self@,
        decreases self,
    {
        match self {
            TypeExpr::Path(p) => TypeExpr::Path(p.clone()),
            TypeExpr::Other(s) => TypeExpr::Other(s.clone()),
        }
    }
}

impl Clone for Path {
    fn clone(&self) -> (r: Self)
        ensures
            r@ == self@,
        decreases self,
    {
        let mut segments: Vec<PathSegment> = Vec::new();
        let mut i: usize = 0;
        while i < self.segments.len()
            invariant
                i <= self.segments.len(),
                segments@.len() == i,
                forall|j: int| 0 <= j < i ==> (#[trigger] segments@[j])@ == self.segments@[j]@,
            decreases self.segments.len() - i,
        {
            let s = self.segments[i].clone();
            segments.push(s);
            i += 1;
        }
        let r = Path { leading_colon: self.leading_colon, segments };
        assert(r@.segments =~= self@.segments);
        r
    }
}

impl Clone for PathSegment {
    fn clone(&self) -> (r: Self)
        ensures
            r@ == self@,
        decreases self,
    {
        PathSegment { ident: self.ident.clone(), arguments: self.arguments.clone() }
    }
}

impl Clone for PathArguments {
    fn clone(&self) -> (r: Self)
        ensures
            r@ == self@,
        decreases self,
    {
        match self {
            PathArguments::Bare => PathArguments::Bare,
            PathArguments::AngleBracketed(args) => {
                let mut copy: Vec<GenericArgument> = Vec::new();
                let mut i: usize = 0;
                while i < args.len()
                    invariant
                        self is AngleBracketed,
                        self->AngleBracketed_0 == *args,
                        i <= args.len(),
                        copy@.len() == i,
                        forall|j: int| 0 <= j < i ==> (#[trigger] copy@[j])@ == args@[j]@,
                    decreases args.len() - i,
                {
                    let a = args[i].clone();
                    copy.push(a);
                    i += 1;
                }
                let r = PathArguments::AngleBracketed(copy);
                assert(r@->AngleBracketed_0 =~= self@->AngleBracketed_0);
                r
            },
            PathArguments::Parenthesized(s) => PathArguments::Parenthesized(s.clone()),
        }
    }
}

impl Clone for GenericArgument {
    fn clone(&self) -> (r: Self)
        ensures
            r@ == self@,
        decreases self,
    {
        match self {
            GenericArgument::Type(t) => GenericArgument::Type(t.clone()),
            GenericArgument::Other(s) => GenericArgument::Other(s.clone()),
        }
    }
}

/// A string literal: what it holds once escapes are resolved, and the suffix
/// written directly behind the closing quote, if any.
#[derive(Clone, Debug, PartialEq, Eq)]
pub struct StrLit {
    pub value: String,
    pub suffix: String,
}

/// One token of an attribute's arguments.
#[derive(Clone, Debug, PartialEq, Eq)]
pub enum Token {
    /// A word: an identifier or a keyword, as written.
    Ident(String),
    /// A single punctuation character.
    Punct(char),
    /// A string literal.
    Str(StrLit),
    /// Any other token: another literal or a bracketed group.
    Other,
}

/// What follows the path of an attribute.
#[derive(Clone, Debug, PartialEq, Eq)]
pub enum Meta {
    /// Nothing, as in `#[builder]`.
    Path,
    /// Tokens between brackets, as in `#[builder(each = "arg")]`.
    List(Vec<Token>),
    /// `=` and a value, as in `#[builder = "arg"]`.
    NameValue,
}

/// An attribute on a field.
#[derive(Clone, Debug, PartialEq, Eq)]
pub struct Attribute {
    pub path: Path,
    pub meta: Meta,
}

/// A named field of a record.
#[derive(Clone, Debug, PartialEq, Eq)]
pub struct Field {
    pub attrs: Vec<Attribute>,
    pub ident: String,
    pub ty: TypeExpr,
}

/// The visibility of an item. The generator hands it on as it is.
#[derive(Debug, PartialEq, Eq)]
pub enum Visibility {
    /// `pub`
    Public,
    /// `pub(crate)`, `pub(super)`, `pub(in path)`: the whole marker as source
    /// text.
    Restricted(String),
    /// No marker.
    Inherited,
}

/// The fields of a struct.
#[derive(Clone, Debug, PartialEq, Eq)]
pub enum Fields {
    /// `struct S { a: A, b: B }`
    Named(Vec<Field>),
    /// `struct S(A, B);`
    Unnamed,
    /// `struct S;`
    Unit,
}

/// What kind of item a declaration is.
#[derive(Clone, Debug, PartialEq, Eq)]
pub enum Data {
    Struct(Fields),
    Enum,
    Union,
}

/// A declaration that the builder is asked for.
#[derive(Clone, Debug, PartialEq, Eq)]
pub struct Declaration {
    pub vis: Visibility,
    pub ident: String,
    pub data: Data,
}

impl Clone for Visibility {
    fn clone(&self) -> (r: Self)
        ensures
            r == *self,
    {
        match self {
            Visibility::Public => Visibility::Public,
            Visibility::Restricted(s) => Visibility::Restricted(s.clone()),
            Visibility::Inherited => Visibility::Inherited,
        }
    }
}

} // verus!
