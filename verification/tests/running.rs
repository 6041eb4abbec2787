use builder::error::ConstructionError;
use builder::my_builder;
use builder::runtime::{BuilderValue, Value};
use builder::schema::{BuilderSchema, SetterSpec};
use builder::syntax::{
    Attribute, Data, Declaration, Field, Fields, GenericArgument, Meta, Path, PathArguments,
    PathSegment, StrLit, Token, TypeExpr, Visibility,
};

fn word(name: &str) -> TypeExpr {
    TypeExpr::Path(Path {
        leading_colon: false,
        segments: vec![PathSegment { ident: name.to_string(), arguments: PathArguments::Bare }],
    })
}

fn wrapped(name: &str, inner: TypeExpr) -> TypeExpr {
    TypeExpr::Path(Path {
        leading_colon: false,
        segments: vec![PathSegment {
            ident: name.to_string(),
            arguments: PathArguments::AngleBracketed(vec![GenericArgument::Type(inner)]),
        }],
    })
}

fn each(alias: &str) -> Attribute {
    Attribute {
        path: Path {
            leading_colon: false,
            segments: vec![PathSegment {
                ident: "builder".to_string(),
                arguments: PathArguments::Bare,
            }],
        },
        meta: Meta::List(vec![
            Token::Ident("each".to_string()),
            Token::Punct('='),
            Token::Str(StrLit { value: alias.to_string(), suffix: String::new() }),
        ]),
    }
}

fn field(name: &str, ty: TypeExpr) -> Field {
    Field { attrs: vec![], ident: name.to_string(), ty }
}

fn field_with(attr: Attribute, name: &str, ty: TypeExpr) -> Field {
    Field { attrs: vec![attr], ident: name.to_string(), ty }
}

fn generated(name: &str, fields: Vec<Field>) -> BuilderSchema {
    my_builder(Declaration {
        vis: Visibility::Public,
        ident: name.to_string(),
        data: Data::Struct(Fields::Named(fields)),
    })
    .unwrap()
}

fn setter<'a>(schema: &'a BuilderSchema, name: &str) -> &'a SetterSpec {
    schema.builder_impl.setters.iter().find(|s| s.name == name).unwrap()
}

fn one(v: &'static str) -> Value<&'static str> {
    Value::Single(v)
}

fn post() -> BuilderSchema {
    generated(
        "Post",
        vec![
            field("name", word("Identifier")),
            field_with(each("tag"), "tags", wrapped("Vec", word("String"))),
        ],
    )
}

fn missing(message: &str) -> ConstructionError {
    ConstructionError { message: message.to_string() }
}

#[test]
fn empty_builder_builds_the_empty_record() {
    let schema = generated("Unit", vec![]);
    let b: BuilderValue<u8> = schema.target_impl.default_builder();
    assert!(b.slots.is_empty());
    assert_eq!(schema.builder_impl.build.build(b), Ok(vec![]));
}

#[test]
fn a_missing_plain_field_fails_with_its_name() {
    let schema = generated("R", vec![field("width", word("u32"))]);
    let b: BuilderValue<u32> = schema.target_impl.default_builder();
    assert_eq!(b.slots, vec![None]);
    assert_eq!(schema.builder_impl.build.build(b), Err(missing("field width is missing")));
}

#[test]
fn the_first_missing_field_is_named() {
    let schema = generated(
        "R",
        vec![
            field("a", word("u32")),
            field("b", wrapped("Option", word("u32"))),
            field("c", word("u32")),
            field("d", word("u32")),
        ],
    );
    let mut b: BuilderValue<u32> = schema.target_impl.default_builder();
    assert_eq!(
        schema.builder_impl.build.build(schema.target_impl.default_builder::<u32>()),
        Err(missing("field a is missing"))
    );
    setter(&schema, "a").call(&mut b, Value::Single(1));
    setter(&schema, "d").call(&mut b, Value::Single(4));
    assert_eq!(schema.builder_impl.build.build(b), Err(missing("field c is missing")));
}

#[test]
fn an_optional_field_may_be_absent_or_present() {
    let schema = generated(
        "R",
        vec![field("a", wrapped("Option", word("u32"))), field("b", word("u32"))],
    );
    let mut without: BuilderValue<u32> = schema.target_impl.default_builder();
    setter(&schema, "b").call(&mut without, Value::Single(2));
    assert_eq!(schema.builder_impl.build.build(without), Ok(vec![None, Some(Value::Single(2))]));
    let mut with: BuilderValue<u32> = schema.target_impl.default_builder();
    setter(&schema, "b").call(setter(&schema, "a").call(&mut with, Value::Single(1)), Value::Single(2));
    assert_eq!(
        schema.builder_impl.build.build(with),
        Ok(vec![Some(Value::Single(1)), Some(Value::Single(2))])
    );
    let only_optional = generated("R", vec![field("a", wrapped("Option", word("u32")))]);
    let b: BuilderValue<u32> = only_optional.target_impl.default_builder();
    assert_eq!(only_optional.builder_impl.build.build(b), Ok(vec![None]));
}

#[test]
fn a_list_field_starts_present_and_empty() {
    let schema = generated(
        "R",
        vec![
            field("items", wrapped("Vec", word("u32"))),
            field("note", wrapped("Option", word("u32"))),
        ],
    );
    let b: BuilderValue<u32> = schema.target_impl.default_builder();
    assert_eq!(b.slots, vec![Some(Value::List(vec![])), None]);
    assert_eq!(schema.builder_impl.build.build(b), Ok(vec![Some(Value::List(vec![])), None]));
}

#[test]
fn element_calls_append_in_order() {
    let schema = generated(
        "R",
        vec![field_with(each("item"), "items", wrapped("Vec", word("u32")))],
    );
    let item = setter(&schema, "item");
    let mut b: BuilderValue<u32> = schema.target_impl.default_builder();
    for k in 0..5u32 {
        item.call(&mut b, Value::Single(10 * k));
    }
    assert_eq!(
        schema.builder_impl.build.build(b),
        Ok(vec![Some(Value::List(vec![0, 10, 20, 30, 40]))])
    );
}

#[test]
fn a_bulk_call_overwrites_what_was_appended() {
    let schema = generated(
        "R",
        vec![field_with(each("item"), "items", wrapped("Vec", word("u32")))],
    );
    let item = setter(&schema, "item");
    let items = setter(&schema, "items");
    let mut b: BuilderValue<u32> = schema.target_impl.default_builder();
    item.call(item.call(item.call(&mut b, Value::Single(1)), Value::Single(2)), Value::Single(3));
    items.call(&mut b, Value::List(vec![7, 8]));
    assert_eq!(b.slots, vec![Some(Value::List(vec![7, 8]))]);
    item.call(&mut b, Value::Single(9));
    assert_eq!(schema.builder_impl.build.build(b), Ok(vec![Some(Value::List(vec![7, 8, 9]))]));
}

#[test]
fn an_alias_that_is_the_field_name_appends() {
    let schema = generated(
        "R",
        vec![field_with(each("items"), "items", wrapped("Vec", word("u32")))],
    );
    assert_eq!(schema.builder_impl.setters.len(), 1);
    let items = setter(&schema, "items");
    let mut b: BuilderValue<u32> = schema.target_impl.default_builder();
    items.call(items.call(&mut b, Value::Single(1)), Value::Single(2));
    assert_eq!(b.slots, vec![Some(Value::List(vec![1, 2]))]);
}

#[test]
fn a_setter_changes_no_other_field() {
    let schema = generated(
        "R",
        vec![
            field("a", word("u32")),
            field_with(each("x"), "xs", wrapped("Vec", word("u32"))),
            field_with(each("y"), "ys", wrapped("Vec", word("u32"))),
        ],
    );
    let mut b: BuilderValue<u32> = schema.target_impl.default_builder();
    setter(&schema, "y").call(&mut b, Value::Single(5));
    assert_eq!(b.slots, vec![None, Some(Value::List(vec![])), Some(Value::List(vec![5]))]);
    setter(&schema, "a").call(&mut b, Value::Single(1));
    setter(&schema, "a").call(&mut b, Value::Single(2));
    assert_eq!(
        b.slots,
        vec![Some(Value::Single(2)), Some(Value::List(vec![])), Some(Value::List(vec![5]))]
    );
}

#[test]
fn tags_without_a_name_do_not_build() {
    let schema = post();
    let tag = setter(&schema, "tag");
    let mut b: BuilderValue<&'static str> = schema.target_impl.default_builder();
    tag.call(tag.call(&mut b, one("a")), one("b"));
    assert_eq!(schema.builder_impl.build.build(b), Err(missing("field name is missing")));
}

#[test]
fn tags_with_a_name_build_the_record() {
    let schema = post();
    let tag = setter(&schema, "tag");
    let name = setter(&schema, "name");
    let mut b: BuilderValue<&'static str> = schema.target_impl.default_builder();
    name.call(tag.call(tag.call(&mut b, one("a")), one("b")), one("x"));
    assert_eq!(
        schema.builder_impl.build.build(b),
        Ok(vec![Some(Value::Single("x")), Some(Value::List(vec!["a", "b"]))])
    );
}
