//! What the generator hands to a back end: the builder struct, its setters,
//! its `build` method and the factory method of the record, as plain data.

use vstd::prelude::*;

use crate::syntax::{TypeExpr, TypeModel, Visibility};

verus! {

/// The mathematical value of a result: that of what was made, or the error
/// as it is.
pub open spec fn result_view<T: View, E>(r: Result<T, E>) -> Result<T::V, E> {
    match r {
        Ok(t) => Ok(t@),
        Err(e) => Err(e),
    }
}

/// A field of the builder struct.
#[derive(Debug, PartialEq, Eq)]
pub struct BuilderField {
    pub name: String,
    pub ty: TypeExpr,
}

/// The mathematical value of a [`BuilderField`].
pub struct BuilderFieldModel {
    pub name: Seq<char>,
    pub ty: TypeModel,
}

impl View for BuilderField {
    type V = BuilderFieldModel;

    open spec fn view(&self) -> BuilderFieldModel {
        BuilderFieldModel { name: self.name@, ty: self.ty@ }
    }
}

/// The builder struct: its visibility, its name and its fields in order.
#[derive(Debug, PartialEq, Eq)]
pub struct StructDef {
    pub vis: Visibility,
    pub name: String,
    pub fields: Vec<BuilderField>,
}

/// The mathematical value of a [`StructDef`].
pub struct StructDefModel {
    pub vis: Visibility,
    pub name: Seq<char>,
    pub fields: Seq<BuilderFieldModel>,
}

impl View for StructDef {
    type V = StructDefModel;

    open spec fn view(&self) -> StructDefModel {
        StructDefModel {
            vis: self.vis,
            name: self.name@,
            fields: self.fields@.map_values(|f: BuilderField| f@),
        }
    }
}

/// What a setter does with its argument.
#[derive(Clone, Copy, Debug, PartialEq, Eq, Structural)]
pub enum SetterKind {
    /// One at a time: the argument is appended to the list that the field
    /// holds.
    Each,
    /// All at once: the argument becomes the field's value, whatever the
    /// field held before.
    All,
}

/// A setter method of the builder: `fn name(&mut self, arg: arg_ty) -> &mut Self`,
/// which writes the builder field `field`, the one at position `slot`, and
/// returns the builder for the next call.
#[derive(Debug, PartialEq, Eq)]
pub struct SetterSpec {
    pub name: String,
    pub arg: String,
    pub arg_ty: TypeExpr,
    pub field: String,
    pub slot: usize,
    pub kind: SetterKind,
}

/// The mathematical value of a [`SetterSpec`].
pub struct SetterModel {
    pub name: Seq<char>,
    pub arg: Seq<char>,
    pub arg_ty: TypeModel,
    pub field: Seq<char>,
    pub slot: int,
    pub kind: SetterKind,
}

impl View for SetterSpec {
    type V = SetterModel;

    open spec fn view(&self) -> SetterModel {
        SetterModel {
            name: self.name@,
            arg: self.arg@,
            arg_ty: self.arg_ty@,
            field: self.field@,
            slot: self.slot as int,
            kind: self.kind,
        }
    }
}

/// How `build` fills one field of the record from the builder field of the
/// same name: with `on_missing` absent, the builder's value is taken as it
/// is, present or not; otherwise a value must be present, and `on_missing`
/// is the message of the error that `build` returns when it is not.
#[derive(Debug, PartialEq, Eq)]
pub struct BuildInit {
    pub field: String,
    pub on_missing: Option<String>,
}

/// The mathematical value of a [`BuildInit`].
pub struct BuildInitModel {
    pub field: Seq<char>,
    pub on_missing: Option<Seq<char>>,
}

impl View for BuildInit {
    type V = BuildInitModel;

    open spec fn view(&self) -> BuildInitModel {
        BuildInitModel {
            field: self.field@,
            on_missing: match self.on_missing {
                Some(message) => Some(message@),
                None => None,
            },
        }
    }
}

/// The method `pub fn name(&mut self) -> Result<target, error>` of the
/// builder: it fills the fields of `target` in the order of `inits` and stops
/// at the first one that lacks a value it needs.
#[derive(Debug, PartialEq, Eq)]
pub struct BuildMethodSpec {
    pub name: String,
    pub target: String,
    pub inits: Vec<BuildInit>,
}

/// The mathematical value of a [`BuildMethodSpec`].
pub struct BuildMethodModel {
    pub name: Seq<char>,
    pub target: Seq<char>,
    pub inits: Seq<BuildInitModel>,
}

impl View for BuildMethodSpec {
    type V = BuildMethodModel;

    open spec fn view(&self) -> BuildMethodModel {
        BuildMethodModel {
            name: self.name@,
            target: self.target@,
            inits: self.inits@.map_values(|i: BuildInit| i@),
        }
    }
}

/// What a new builder holds in one field: an empty list, or nothing.
#[derive(Debug, PartialEq, Eq)]
pub struct FactoryInit {
    pub field: String,
    pub empty_list: bool,
}

/// The mathematical value of a [`FactoryInit`].
pub struct FactoryInitModel {
    pub field: Seq<char>,
    pub empty_list: bool,
}

impl View for FactoryInit {
    type V = FactoryInitModel;

    open spec fn view(&self) -> FactoryInitModel {
        FactoryInitModel { field: self.field@, empty_list: self.empty_list }
    }
}

/// The associated function `pub fn name() -> builder` of the record `target`,
/// which makes a new builder.
#[derive(Debug, PartialEq, Eq)]
pub struct FactoryMethodSpec {
    pub target: String,
    pub name: String,
    pub builder: String,
    pub inits: Vec<FactoryInit>,
}

/// The mathematical value of a [`FactoryMethodSpec`].
pub struct FactoryMethodModel {
    pub target: Seq<char>,
    pub name: Seq<char>,
    pub builder: Seq<char>,
    pub inits: Seq<FactoryInitModel>,
}

impl View for FactoryMethodSpec {
    type V = FactoryMethodModel;

    open spec fn view(&self) -> FactoryMethodModel {
        FactoryMethodModel {
            target: self.target@,
            name: self.name@,
            builder: self.builder@,
            inits: self.inits@.map_values(|i: FactoryInit| i@),
        }
    }
}

/// The impl block of the builder struct `name`: its setters in the order of
/// the record's fields, then `build`.
#[derive(Debug, PartialEq, Eq)]
pub struct ImplDef {
    pub name: String,
    pub setters: Vec<SetterSpec>,
    pub build: BuildMethodSpec,
}

/// The mathematical value of an [`ImplDef`].
pub struct ImplDefModel {
    pub name: Seq<char>,
    pub setters: Seq<SetterModel>,
    pub build: BuildMethodModel,
}

impl View for ImplDef {
    type V = ImplDefModel;

    open spec fn view(&self) -> ImplDefModel {
        ImplDefModel {
            name: self.name@,
            setters: self.setters@.map_values(|s: SetterSpec| s@),
            build: self.build@,
        }
    }
}

/// Everything that is generated for one record.
#[derive(Debug, PartialEq, Eq)]
pub struct BuilderSchema {
    pub builder_struct: StructDef,
    pub builder_impl: ImplDef,
    pub target_impl: FactoryMethodSpec,
}

/// The mathematical value of a [`BuilderSchema`].
pub struct BuilderSchemaModel {
    pub builder_struct: StructDefModel,
    pub builder_impl: ImplDefModel,
    pub target_impl: FactoryMethodModel,
}

impl View for BuilderSchema {
    type V = BuilderSchemaModel;

    open spec fn view(&self) -> BuilderSchemaModel {
        BuilderSchemaModel {
            builder_struct: self.builder_struct@,
            builder_impl: self.builder_impl@,
            target_impl: self.target_impl@,
        }
    }
}

} // verus!
