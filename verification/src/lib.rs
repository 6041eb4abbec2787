//! A generator of builders: from the declaration of a record with named
//! fields it derives the definition of a companion builder, with one or two
//! setters per field, a `build` method that checks that the needed values are
//! there, and a factory method on the record.

pub mod error;
pub mod ident;
pub mod laws;
pub mod runtime;
pub mod schema;
pub mod shape;
pub mod syntax;
pub mod utils;

use vstd::prelude::*;
use vstd::string::StringExecFns;

use crate::error::{ClauseError, UsageError};
use crate::ident::text_of;
use crate::schema::{
    result_view, BuildInit, BuildInitModel, BuildMethodModel, BuildMethodSpec, BuilderField,
    BuilderFieldModel, BuilderSchema, BuilderSchemaModel, FactoryInit, FactoryInitModel,
    FactoryMethodModel, FactoryMethodSpec, ImplDef, ImplDefModel, SetterKind, SetterModel,
    SetterSpec, StructDef, StructDefModel,
};
use crate::shape::{classify, shape_of, ShapeModel, TypeShape};
use crate::syntax::{
    ArgumentsModel, Data, Declaration, Field, Fields, GenericArgModel, GenericArgument, Path,
    PathArguments, PathModel, PathSegment, SegmentModel, StrLit, TypeExpr, TypeModel, Visibility,
};
use crate::utils::{builder_attr, has_builder_attr};

verus! {

/// The type `Option<ty>`.
pub open spec fn option_of(ty: TypeModel) -> TypeModel {
    TypeModel::Path(
        PathModel {
            leading_colon: false,
            segments: seq![
                SegmentModel {
                    ident: "Option"@,
                    arguments: ArgumentsModel::AngleBracketed(seq![GenericArgModel::Type(ty)]),
                },
            ],
        },
    )
}

/// The type of the builder field for a record field of type `ty`: `ty`
/// itself where it is already written `Option<T>`, and `Option<ty>`
/// otherwise.
pub open spec fn builder_field_ty(ty: TypeModel) -> TypeModel {
    match shape_of(ty) {
        ShapeModel::Optional(_) => ty,
        _ => option_of(ty),
    }
}

/// The builder field for a record field.
pub open spec fn builder_field(field: Field) -> BuilderFieldModel {
    BuilderFieldModel { name: field.ident@, ty: builder_field_ty(field.ty@) }
}

/// The builder struct for a record with the given fields.
pub open spec fn struct_def(
    vis: Visibility,
    builder_name: Seq<char>,
    fields: Seq<Field>,
) -> StructDefModel {
    StructDefModel {
        vis,
        name: builder_name,
        fields: fields.map_values(|f: Field| builder_field(f)),
    }
}

/// The message of the error that `build` returns for the missing field
/// `name`.
pub open spec fn missing_message(name: Seq<char>) -> Seq<char> {
    "field "@ + name + " is missing"@
}

/// How `build` fills a record field: a field written `Option<T>` takes what
/// the builder holds; any other field needs a value.
pub open spec fn build_init(field: Field) -> BuildInitModel {
    BuildInitModel {
        field: field.ident@,
        on_missing: match shape_of(field.ty@) {
            ShapeModel::Optional(_) => None,
            _ => Some(missing_message(field.ident@)),
        },
    }
}

/// The `build` method for a record with the given fields.
pub open spec fn build_method(input_name: Seq<char>, fields: Seq<Field>) -> BuildMethodModel {
    BuildMethodModel {
        name: "build"@,
        target: input_name,
        inits: fields.map_values(|f: Field| build_init(f)),
    }
}

/// What a new builder holds for a record field: an empty list where the
/// field is written `Vec<T>`, nothing otherwise.
pub open spec fn factory_init(field: Field) -> FactoryInitModel {
    FactoryInitModel { field: field.ident@, empty_list: shape_of(field.ty@) is List }
}

/// The factory method for a record with the given fields.
pub open spec fn factory_method(
    input_name: Seq<char>,
    builder_name: Seq<char>,
    fields: Seq<Field>,
) -> FactoryMethodModel {
    FactoryMethodModel {
        target: input_name,
        name: "default_builder"@,
        builder: builder_name,
        inits: fields.map_values(|f: Field| factory_init(f)),
    }
}

/// The values of a list of setters.
pub open spec fn setter_models(setters: Seq<SetterSpec>) -> Seq<SetterModel> {
    setters.map_values(|s: SetterSpec| s@)
}

/// The values of the setters that were generated, or the error as it is.
pub open spec fn setters_made<E>(r: Result<Vec<SetterSpec>, E>) -> Result<Seq<SetterModel>, E> {
    match r {
        Ok(v) => Ok(setter_models(v@)),
        Err(e) => Err(e),
    }
}

/// The all-at-once setter of a field: it has the field's name and takes the
/// field's type, or `T` where the field is written `Option<T>`.
pub open spec fn all_setter(field: Field, slot: int) -> SetterModel {
    SetterModel {
        name: field.ident@,
        arg: field.ident@,
        arg_ty: match shape_of(field.ty@) {
            ShapeModel::Optional(inner) => inner,
            _ => field.ty@,
        },
        field: field.ident@,
        slot,
        kind: SetterKind::All,
    }
}

/// The one-at-a-time setter `alias` of a field that holds a list of `elem`.
pub open spec fn each_setter(
    field: Field,
    slot: int,
    alias: Seq<char>,
    elem: TypeModel,
) -> SetterModel {
    SetterModel {
        name: alias,
        arg: "new_"@ + alias,
        arg_ty: elem,
        field: field.ident@,
        slot,
        kind: SetterKind::Each,
    }
}

/// The setters of a field whose attribute asks for a one-at-a-time setter,
/// where `alias` is the identifier read from the attribute's string literal,
/// if it holds one. The field must be written `Vec<T>`. The all-at-once
/// setter is left out where the alias is the field's own name.
pub open spec fn each_setters(field: Field, slot: int, alias: Option<Seq<char>>) -> Result<
    Seq<SetterModel>,
    ClauseError,
> {
    match shape_of(field.ty@) {
        ShapeModel::List(elem) => match alias {
            Some(name) => Ok(
                if name == field.ident@ {
                    seq![each_setter(field, slot, name, elem)]
                } else {
                    seq![each_setter(field, slot, name, elem), all_setter(field, slot)]
                },
            ),
            None => Err(ClauseError::InvalidAlias),
        },
        _ => Err(ClauseError::NotAList),
    }
}

/// For each field of a record, in order, the identifier that was read from
/// the string literal of the field's attribute, if one was.
pub type Aliases = Seq<Option<Seq<char>>>;

/// No identifier for any of `n` fields.
pub open spec fn no_aliases(n: nat) -> Aliases {
    Seq::new(n, |i: int| None)
}

/// The setters of the field at position `slot`, where `alias` is the
/// identifier that was read from the string literal of the field's
/// attribute, if one was: the all-at-once setter alone where the field has
/// no `builder` attribute. A string literal with a suffix holds no
/// identifier, whatever was read.
pub open spec fn field_setters(field: Field, slot: int, alias: Option<Seq<char>>) -> Result<
    Seq<SetterModel>,
    ClauseError,
> {
    match builder_attr(field.attrs@) {
        None => Ok(seq![all_setter(field, slot)]),
        Some(attr) => match attr.alias_literal() {
            Err(e) => Err(e),
            Ok(lit) => each_setters(
                field,
                slot,
                if lit.suffix@.len() == 0 {
                    alias
                } else {
                    None
                },
            ),
        },
    }
}

/// Whether the setters of a field depend on what is read from the string
/// literal of its attribute: the field has the attribute `each = "..."`,
/// the literal has no suffix, and the field is written `Vec<T>`. Of no other
/// field is the literal read.
pub open spec fn reads_alias(field: Field) -> bool {
    &&& builder_attr(field.attrs@) matches Some(attr)
    &&& attr.alias_literal() matches Ok(lit)
    &&& lit.suffix@.len() == 0
    &&& shape_of(field.ty@) is List
}

/// Whether `aliases` can be what was read for the fields: one entry for
/// each field, and none where the literal is not read.
pub open spec fn aliases_fit(fields: Seq<Field>, aliases: Aliases) -> bool {
    &&& aliases.len() == fields.len()
    &&& forall|i: int|
        0 <= i < fields.len() && (#[trigger] aliases[i]) is Some ==> reads_alias(fields[i])
}

/// Whether no literal is read in any of the fields.
pub open spec fn reads_no_alias(fields: Seq<Field>) -> bool {
    forall|i: int| 0 <= i < fields.len() ==> !reads_alias(#[trigger] fields[i])
}

/// The setters of all fields, in the order of the fields, or the error of
/// the first field whose attribute is refused.
pub open spec fn setters(fields: Seq<Field>, aliases: Aliases) -> Result<
    Seq<SetterModel>,
    UsageError,
>
    decreases fields.len(),
{
    if fields.len() == 0 {
        Ok(Seq::empty())
    } else {
        let last = fields.len() - 1;
        match setters(fields.drop_last(), aliases) {
            Err(e) => Err(e),
            Ok(before) => match field_setters(fields[last], last, aliases[last]) {
                Err(error) => Err(UsageError::Clause { field: last as usize, error }),
                Ok(these) => Ok(before + these),
            },
        }
    }
}

/// The impl block of the builder.
pub open spec fn impl_def(
    input_name: Seq<char>,
    builder_name: Seq<char>,
    fields: Seq<Field>,
    aliases: Aliases,
) -> Result<ImplDefModel, UsageError> {
    match setters(fields, aliases) {
        Err(e) => Err(e),
        Ok(setters) => Ok(
            ImplDefModel { name: builder_name, setters, build: build_method(input_name, fields) },
        ),
    }
}

/// The named fields of a declaration; none where it has no named fields.
pub open spec fn fields_of(input: Declaration) -> Seq<Field> {
    match input.data {
        Data::Struct(Fields::Named(fields)) => fields@,
        _ => Seq::empty(),
    }
}

/// What is generated for a declaration, where `aliases` are the identifiers
/// that were read from the attributes of its fields: for a struct with named
/// fields, the builder `XBuilder` of the struct `X`, unless the attribute of
/// a field is refused.
pub open spec fn generate(input: Declaration, aliases: Aliases) -> Result<
    BuilderSchemaModel,
    UsageError,
> {
    match input.data {
        Data::Struct(Fields::Named(fields)) => {
            let builder_name = input.ident@ + "Builder"@;
            match impl_def(input.ident@, builder_name, fields@, aliases) {
                Err(e) => Err(e),
                Ok(builder_impl) => Ok(
                    BuilderSchemaModel {
                        builder_struct: struct_def(input.vis, builder_name, fields@),
                        builder_impl,
                        target_impl: factory_method(input.ident@, builder_name, fields@),
                    },
                ),
            }
        },
        Data::Struct(_) => Err(UsageError::UnnamedFields),
        _ => Err(UsageError::NotAStruct),
    }
}

/// Once a field's attribute is refused, the fields behind it change nothing.
pub(crate) proof fn lemma_setters_err_persists(fields: Seq<Field>, aliases: Aliases, n: int)
    requires
        0 <= n <= fields.len(),
        setters(fields.take(n), aliases) is Err,
    ensures
        setters(fields, aliases) == setters(fields.take(n), aliases),
    decreases fields.len() - n,
{
    if n == fields.len() {
        assert(fields.take(n) =~= fields);
    } else {
        assert(fields.drop_last().take(n) =~= fields.take(n));
        lemma_setters_err_persists(fields.drop_last(), aliases, n);
    }
}

/// The setters of some fields depend on what was read for these fields
/// only.
pub(crate) proof fn lemma_setters_agree(fields: Seq<Field>, a: Aliases, b: Aliases)
    requires
        forall|i: int| 0 <= i < fields.len() ==> a[i] == b[i],
    ensures
        setters(fields, a) == setters(fields, b),
    decreases fields.len(),
{
    if fields.len() > 0 {
        lemma_setters_agree(fields.drop_last(), a, b);
    }
}

/// Where no literal is read, there is one choice of aliases.
pub(crate) proof fn lemma_no_aliases(fields: Seq<Field>, aliases: Aliases)
    requires
        aliases_fit(fields, aliases),
        reads_no_alias(fields),
    ensures
        aliases == no_aliases(fields.len()),
{
    assert(aliases =~= no_aliases(fields.len()));
}

/// A record with named fields, and the name of its builder.
#[derive(Debug, PartialEq, Eq)]
pub struct Builder {
    /// name of the input struct
    pub input_name: String,
    /// visibility of the input struct
    pub input_vis: Visibility,
    /// named fields of the input struct, in the order of the declaration
    pub fields: Vec<Field>,
    /// name of the builder struct
    pub builder_name: String,
}

/// Make the type `Option<ty>`.
fn wrap_in_option(ty: TypeExpr) -> (r: TypeExpr)
    ensures
        r@ == option_of(ty@),
{
    let mut args: Vec<GenericArgument> = Vec::new();
    args.push(GenericArgument::Type(ty));
    let mut segments: Vec<PathSegment> = Vec::new();
    segments.push(
        PathSegment { ident: "Option".to_owned(), arguments: PathArguments::AngleBracketed(args) },
    );
    let r = TypeExpr::Path(Path { leading_colon: false, segments });
    proof {
        let seg = r->Path_0.segments@[0];
        assert(seg@.arguments->AngleBracketed_0 =~= seq![GenericArgModel::Type(ty@)]);
        assert(r@->Path_0.segments =~= option_of(ty@)->Path_0.segments);
    }
    r
}

impl Builder {
    /// Read the record out of a declaration. A declaration that is no struct
    /// with named fields is refused.
    pub fn new(input: Declaration) -> (r: Result<Self, UsageError>)
        ensures
            match input.data {
                Data::Struct(Fields::Named(fields)) => {
                    &&& r matches Ok(b)
                    &&& b.input_name == input.ident
                    &&& b.input_vis == input.vis
                    &&& b.fields == fields
                    &&& b.builder_name@ == input.ident@ + "Builder"@
                },
                Data::Struct(_) => r == Err::<Self, UsageError>(UsageError::UnnamedFields),
                _ => r == Err::<Self, UsageError>(UsageError::NotAStruct),
            },
    {
        let input_name = input.ident;
        let input_vis = input.vis;
        let builder_name = input_name.clone().concat("Builder");
        let fields = match input.data {
            Data::Struct(data) => match data {
                Fields::Named(fields) => fields,
                _ => {
                    return Err(UsageError::UnnamedFields);
                },
            },
            _ => {
                return Err(UsageError::NotAStruct);
            },
        };
        Ok(Builder { input_name, input_vis, builder_name, fields })
    }

    /// Define the builder struct `XBuilder` corresponding to the input struct
    /// `X`. A field of type `T` in the input struct gets mapped to a field
    /// with the same name in the builder struct. The type of the builder
    /// field is `Option<T>` when `T` is not written as an `Option` itself.
    /// Otherwise, it's kept the same as the input field.
    pub fn define_struct(&self) -> (r: StructDef)
        ensures
            r@ == struct_def(self.input_vis, self.builder_name@, self.fields@),
    {
        let mut fields: Vec<BuilderField> = Vec::new();
        let mut i: usize = 0;
        while i < self.fields.len()
            invariant
                i <= self.fields.len(),
                fields@.len() == i,
                forall|j: int|
                    0 <= j < i ==> (#[trigger] fields@[j])@ == builder_field(self.fields@[j]),
            decreases self.fields.len() - i,
        {
            let f = &self.fields[i];
            let ty = match classify(&f.ty) {
                TypeShape::Optional(_) => f.ty.clone(),
                _ => wrap_in_option(f.ty.clone()),
            };
            fields.push(BuilderField { name: f.ident.clone(), ty });
            i += 1;
        }
        let r = StructDef { vis: self.input_vis.clone(), name: self.builder_name.clone(), fields };
        assert(r@.fields =~= struct_def(self.input_vis, self.builder_name@, self.fields@).fields);
        r
    }

    /// Generate the `build` method, which builds the instance of the
    /// input struct from the builder. The method returns an error if any
    /// field that is not written as an `Option` is missing a value.
    pub fn impl_build(&self) -> (r: BuildMethodSpec)
        ensures
            r@ == build_method(self.input_name@, self.fields@),
    {
        let mut inits: Vec<BuildInit> = Vec::new();
        let mut i: usize = 0;
        while i < self.fields.len()
            invariant
                i <= self.fields.len(),
                inits@.len() == i,
                forall|j: int|
                    0 <= j < i ==> (#[trigger] inits@[j])@ == build_init(self.fields@[j]),
            decreases self.fields.len() - i,
        {
            let f = &self.fields[i];
            let on_missing = match classify(&f.ty) {
                TypeShape::Optional(_) => None,
                _ => {
                    let mut message = "field ".to_owned();
                    message.append(f.ident.as_str());
                    message.append(" is missing");
                    Some(message)
                },
            };
            inits.push(BuildInit { field: f.ident.clone(), on_missing });
            i += 1;
        }
        let r = BuildMethodSpec {
            name: "build".to_owned(),
            target: self.input_name.clone(),
            inits,
        };
        assert(r@.inits =~= build_method(self.input_name@, self.fields@).inits);
        r
    }

    /// Define the factory method of the input struct, which returns a new
    /// builder: every field holds nothing, but for those written `Vec<T>`,
    /// which hold an empty list.
    pub fn impl_target(&self) -> (r: FactoryMethodSpec)
        ensures
            r@ == factory_method(self.input_name@, self.builder_name@, self.fields@),
    {
        let mut inits: Vec<FactoryInit> = Vec::new();
        let mut i: usize = 0;
        while i < self.fields.len()
            invariant
                i <= self.fields.len(),
                inits@.len() == i,
                forall|j: int|
                    0 <= j < i ==> (#[trigger] inits@[j])@ == factory_init(self.fields@[j]),
            decreases self.fields.len() - i,
        {
            let f = &self.fields[i];
            let empty_list = match classify(&f.ty) {
                TypeShape::List(_) => true,
                _ => false,
            };
            inits.push(FactoryInit { field: f.ident.clone(), empty_list });
            i += 1;
        }
        let r = FactoryMethodSpec {
            target: self.input_name.clone(),
            name: "default_builder".to_owned(),
            builder: self.builder_name.clone(),
            inits,
        };
        assert(r@.inits =~= self.fields@.map_values(|f: Field| factory_init(f)));
        r
    }

    /// Generate the setter that sets the value of the builder field at
    /// position `slot` all at once:
    /// `fn name(&mut self, name: T) -> &mut Self`.
    pub fn impl_field_builder(field: &Field, slot: usize) -> (r: SetterSpec)
        ensures
            r@ == all_setter(*field, slot as int),
    {
        let arg_ty = match classify(&field.ty) {
            TypeShape::Optional(inner) => inner.clone(),
            _ => field.ty.clone(),
        };
        SetterSpec {
            name: field.ident.clone(),
            arg: field.ident.clone(),
            arg_ty,
            field: field.ident.clone(),
            slot,
            kind: SetterKind::All,
        }
    }

    /// Generate the setters of a field with the attribute
    /// `#[builder(each = "...")]`, given the identifier `alias` that was read
    /// from the string literal, if it holds one. The alias is the name of the
    /// one-at-a-time setter. If it is different from the field's name, two
    /// setters are generated for the field: one-at-a-time and all-at-once.
    /// If it is the field's name, the all-at-once setter is skipped.
    pub fn impl_each_builder_with(alias: Option<String>, field: &Field, slot: usize) -> (r: Result<
        Vec<SetterSpec>,
        ClauseError,
    >)
        ensures
            setters_made(r) == each_setters(*field, slot as int, text_of(alias)),
    {
        let elem_ty = match classify(&field.ty) {
            TypeShape::List(elem) => elem.clone(),
            _ => {
                return Err(ClauseError::NotAList);
            },
        };
        let name = match alias {
            Some(name) => name,
            None => {
                return Err(ClauseError::InvalidAlias);
            },
        };
        let mut arg = "new_".to_owned();
        arg.append(name.as_str());
        let same = name == field.ident;
        let each = SetterSpec {
            name,
            arg,
            arg_ty: elem_ty,
            field: field.ident.clone(),
            slot,
            kind: SetterKind::Each,
        };
        let mut v: Vec<SetterSpec> = Vec::new();
        v.push(each);
        if !same {
            v.push(Self::impl_field_builder(field, slot));
        }
        assert(setter_models(v@) =~= each_setters(*field, slot as int, text_of(alias))->Ok_0);
        Ok(v)
    }

    /// Generate the setters of a field with the attribute
    /// `#[builder(each = "...")]`, whose string literal is `name`. The
    /// literal is read as an identifier if the field is written `Vec<T>`; the
    /// result is that of [`Builder::impl_each_builder_with`] for what was
    /// read.
    pub fn impl_each_builder(name: &StrLit, field: &Field, slot: usize) -> (r: Result<
        Vec<SetterSpec>,
        ClauseError,
    >)
        ensures
            exists|alias: Option<Seq<char>>|
                {
                    &&& alias is Some ==> name.suffix@.len() == 0 && shape_of(field.ty@) is List
                    &&& setters_made(r) == #[trigger] each_setters(*field, slot as int, alias)
                },
            name.suffix@.len() > 0 ==> setters_made(r) == each_setters(*field, slot as int, None),
            !(shape_of(field.ty@) is List) ==> setters_made(r) == Err::<
                Seq<SetterModel>,
                ClauseError,
            >(ClauseError::NotAList),
    {
        let alias = match classify(&field.ty) {
            TypeShape::List(_) => name.parse(),
            _ => None,
        };
        let ghost read = text_of(alias);
        let r = Self::impl_each_builder_with(alias, field, slot);
        assert(setters_made(r) == each_setters(*field, slot as int, read));
        r
    }

    /// Generate the setters of the field at position `slot`: those of
    /// [`field_setters`] for what was read from the string literal of the
    /// field's attribute, which is nothing where [`reads_alias`] is false.
    pub fn impl_setters_of_field(field: &Field, slot: usize) -> (r: Result<
        Vec<SetterSpec>,
        ClauseError,
    >)
        ensures
            exists|alias: Option<Seq<char>>|
                {
                    &&& alias is Some ==> reads_alias(*field)
                    &&& setters_made(r) == #[trigger] field_setters(*field, slot as int, alias)
                },
            !reads_alias(*field) ==> setters_made(r) == field_setters(*field, slot as int, None),
    {
        if let Some(attr) = has_builder_attr(field) {
            match attr.parse_args() {
                Ok(each_name) => {
                    let r = Self::impl_each_builder(each_name, field, slot);
                    proof {
                        let alias = choose|alias: Option<Seq<char>>|
                            {
                                &&& alias is Some ==> each_name.suffix@.len() == 0 && shape_of(
                                    field.ty@,
                                ) is List
                                &&& setters_made(r) == #[trigger] each_setters(
                                    *field,
                                    slot as int,
                                    alias,
                                )
                            };
                        assert(setters_made(r) == field_setters(*field, slot as int, alias));
                    }
                    r
                },
                Err(e) => {
                    let r = Err(e);
                    assert(setters_made(r) == field_setters(*field, slot as int, None));
                    r
                },
            }
        } else {
            let mut v: Vec<SetterSpec> = Vec::new();
            v.push(Self::impl_field_builder(field, slot));
            assert(setter_models(v@) =~= seq![all_setter(*field, slot as int)]);
            let r = Ok(v);
            assert(setters_made(r) == field_setters(*field, slot as int, None));
            r
        }
    }

    /// Generate the methods of the builder that set the value of each of the
    /// builder's fields, in the order of the fields. The first field whose
    /// attribute is refused ends the generation. The result is that of
    /// [`setters`] for what was read from the attributes; where no literal is
    /// read, it is that for no aliases.
    pub fn impl_field_setters(&self) -> (r: Result<Vec<SetterSpec>, UsageError>)
        ensures
            exists|aliases: Aliases|
                {
                    &&& aliases_fit(self.fields@, aliases)
                    &&& setters_made(r) == #[trigger] setters(self.fields@, aliases)
                },
            reads_no_alias(self.fields@) ==> setters_made(r) == setters(
                self.fields@,
                no_aliases(self.fields@.len()),
            ),
    {
        let mut methods: Vec<SetterSpec> = Vec::new();
        let mut i: usize = 0;
        let ghost mut aliases: Aliases = no_aliases(self.fields@.len());
        assert(self.fields@.take(0) =~= Seq::<Field>::empty());
        assert(setter_models(methods@) =~= Seq::<SetterModel>::empty());
        while i < self.fields.len()
            invariant
                i <= self.fields.len(),
                aliases_fit(self.fields@, aliases),
                setters(self.fields@.take(i as int), aliases) == Ok::<Seq<SetterModel>, UsageError>(
                    setter_models(methods@),
                ),
            decreases self.fields.len() - i,
        {
            let ghost before = setter_models(methods@);
            let ghost earlier = aliases;
            let made = Self::impl_setters_of_field(&self.fields[i], i);
            proof {
                let alias = choose|alias: Option<Seq<char>>|
                    {
                        &&& alias is Some ==> reads_alias(self.fields@[i as int])
                        &&& setters_made(made) == #[trigger] field_setters(
                            self.fields@[i as int],
                            i as int,
                            alias,
                        )
                    };
                aliases = earlier.update(i as int, alias);
                lemma_setters_agree(self.fields@.take(i as int), earlier, aliases);
                assert(self.fields@.take(i as int + 1).drop_last() =~= self.fields@.take(i as int));
            }
            match made {
                Ok(mut these) => {
                    let ghost added = setter_models(these@);
                    methods.append(&mut these);
                    assert(setter_models(methods@) =~= before + added);
                },
                Err(error) => {
                    let r = Err(UsageError::Clause { field: i, error });
                    proof {
                        lemma_setters_err_persists(self.fields@, aliases, i as int + 1);
                        assert(setters_made(r) == setters(self.fields@, aliases));
                        if reads_no_alias(self.fields@) {
                            lemma_no_aliases(self.fields@, aliases);
                        }
                    }
                    return r;
                },
            }
            i += 1;
        }
        let r = Ok(methods);
        proof {
            assert(self.fields@.take(i as int) =~= self.fields@);
            assert(setters_made(r) == setters(self.fields@, aliases));
            if reads_no_alias(self.fields@) {
                lemma_no_aliases(self.fields@, aliases);
            }
        }
        r
    }

    /// Generate the impl block of the builder struct: the setters and
    /// `build`. The result is that of [`impl_def`] for what was read from the
    /// attributes; where no literal is read, it is that for no aliases.
    pub fn impl_struct(&self) -> (r: Result<ImplDef, UsageError>)
        ensures
            exists|aliases: Aliases|
                {
                    &&& aliases_fit(self.fields@, aliases)
                    &&& result_view(r) == #[trigger] impl_def(
                        self.input_name@,
                        self.builder_name@,
                        self.fields@,
                        aliases,
                    )
                },
            reads_no_alias(self.fields@) ==> result_view(r) == impl_def(
                self.input_name@,
                self.builder_name@,
                self.fields@,
                no_aliases(self.fields@.len()),
            ),
    {
        let made = self.impl_field_setters();
        let ghost aliases = choose|aliases: Aliases|
            {
                &&& aliases_fit(self.fields@, aliases)
                &&& setters_made(made) == #[trigger] setters(self.fields@, aliases)
            };
        let r = match made {
            Ok(setters) => {
                let build = self.impl_build();
                Ok(ImplDef { name: self.builder_name.clone(), setters, build })
            },
            Err(e) => Err(e),
        };
        assert(result_view(r) == impl_def(
            self.input_name@,
            self.builder_name@,
            self.fields@,
            aliases,
        ));
        r
    }
}

/// Generate the builder of a declaration: the builder struct, its impl block
/// and the factory method of the record. The result is that of [`generate`]
/// for what was read from the attributes of the fields. A declaration in
/// which no literal is read, as one without `builder` attributes, has the
/// result of [`generate`] for no aliases.
pub fn my_builder(input: Declaration) -> (r: Result<BuilderSchema, UsageError>)
    ensures
        exists|aliases: Aliases|
            {
                &&& aliases_fit(fields_of(input), aliases)
                &&& result_view(r) == #[trigger] generate(input, aliases)
            },
        reads_no_alias(fields_of(input)) ==> result_view(r) == generate(
            input,
            no_aliases(fields_of(input).len()),
        ),
{
    let builder = match Builder::new(input) {
        Ok(b) => b,
        Err(e) => {
            let r = Err(e);
            proof {
                let none = no_aliases(0);
                assert(aliases_fit(fields_of(input), none));
                assert(result_view(r) == generate(input, none));
            }
            return r;
        },
    };
    let builder_struct = builder.define_struct();
    let made = builder.impl_struct();
    let ghost aliases = choose|aliases: Aliases|
        {
            &&& aliases_fit(builder.fields@, aliases)
            &&& result_view(made) == #[trigger] impl_def(
                builder.input_name@,
                builder.builder_name@,
                builder.fields@,
                aliases,
            )
        };
    let r = match made {
        Ok(builder_impl) => {
            let target_impl = builder.impl_target();
            Ok(BuilderSchema { builder_struct, builder_impl, target_impl })
        },
        Err(e) => Err(e),
    };
    assert(result_view(r) == generate(input, aliases));
    r
}

} // verus!
