//! The three shapes that the generator tells apart in a field's type.

use vstd::prelude::*;

use crate::syntax::{TypeExpr, TypeModel};
use crate::utils::{single_arg, single_arg_generic_type};

verus! {

/// The shape of a field's type, read off the way the type is written.
#[derive(Debug, PartialEq, Eq)]
pub enum TypeShape<'t> {
    /// Any type that is not written `Option<T>` or `Vec<T>`: the type itself.
    Plain(&'t TypeExpr),
    /// `Option<T>`: the type `T`.
    Optional(&'t TypeExpr),
    /// `Vec<T>`: the type `T`.
    List(&'t TypeExpr),
}

/// The mathematical value of a [`TypeShape`].
pub enum ShapeModel {
    Plain(TypeModel),
    Optional(TypeModel),
    List(TypeModel),
}

impl<'t> View for TypeShape<'t> {
    type V = ShapeModel;

    open spec fn view(&self) -> ShapeModel {
        match self {
            TypeShape::Plain(ty) => ShapeModel::Plain(ty@),
            TypeShape::Optional(ty) => ShapeModel::Optional(ty@),
            TypeShape::List(ty) => ShapeModel::List(ty@),
        }
    }
}

/// The shape of a type: `Optional(T)` for the single word `Option` with the
/// one argument `T`, `List(T)` for the single word `Vec` with the one
/// argument `T`, and `Plain` for every other way of writing a type, be it a
/// longer path to the same `Option`, an alias of `Vec`, or a wrapper with
/// more or fewer arguments.
pub open spec fn shape_of(ty: TypeModel) -> ShapeModel {
    match single_arg(ty, "Option"@) {
        Some(inner) => ShapeModel::Optional(inner),
        None => match single_arg(ty, "Vec"@) {
            Some(elem) => ShapeModel::List(elem),
            None => ShapeModel::Plain(ty),
        },
    }
}

/// Classify a type by the way it is written. Never fails: what is not
/// recognized is `Plain`.
pub fn classify<'t>(ty: &'t TypeExpr) -> (r: TypeShape<'t>)
    ensures
        r@ == shape_of(ty@),
{
    if let Some(inner) = single_arg_generic_type(ty, "Option") {
        TypeShape::Optional(inner)
    } else if let Some(elem) = single_arg_generic_type(ty, "Vec") {
        TypeShape::List(elem)
    } else {
        TypeShape::Plain(ty)
    }
}

} // verus!
