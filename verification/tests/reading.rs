use builder::error::ClauseError;
use builder::shape::{classify, TypeShape};
use builder::syntax::{
    Attribute, Field, GenericArgument, Meta, Path, PathArguments, PathSegment, StrLit, Token,
    TypeExpr, Visibility,
};
use builder::utils::{has_builder_attr, parse_builder_attr_arg, single_arg_generic_type};

fn segment(name: &str, arguments: PathArguments) -> PathSegment {
    PathSegment { ident: name.to_string(), arguments }
}

fn word(name: &str) -> TypeExpr {
    TypeExpr::Path(Path { leading_colon: false, segments: vec![segment(name, PathArguments::Bare)] })
}

fn generic(name: &str, args: Vec<GenericArgument>) -> TypeExpr {
    TypeExpr::Path(Path {
        leading_colon: false,
        segments: vec![segment(name, PathArguments::AngleBracketed(args))],
    })
}

fn wrapped(name: &str, inner: TypeExpr) -> TypeExpr {
    generic(name, vec![GenericArgument::Type(inner)])
}

fn ident_path(name: &str) -> Path {
    Path { leading_colon: false, segments: vec![segment(name, PathArguments::Bare)] }
}

fn lit(value: &str) -> StrLit {
    StrLit { value: value.to_string(), suffix: String::new() }
}

fn each_tokens(alias: &str) -> Vec<Token> {
    vec![Token::Ident("each".to_string()), Token::Punct('='), Token::Str(lit(alias))]
}

fn attr(name: &str, meta: Meta) -> Attribute {
    Attribute { path: ident_path(name), meta }
}

#[test]
fn option_of_one_type_has_that_argument() {
    let ty = wrapped("Option", word("String"));
    assert_eq!(single_arg_generic_type(&ty, "Option"), Some(&word("String")));
    assert_eq!(single_arg_generic_type(&ty, "Vec"), None);
}

#[test]
fn vec_of_one_type_has_that_argument() {
    let ty = wrapped("Vec", wrapped("Option", word("u8")));
    assert_eq!(single_arg_generic_type(&ty, "Vec"), Some(&wrapped("Option", word("u8"))));
    assert_eq!(single_arg_generic_type(&ty, "Option"), None);
}

#[test]
fn bare_word_has_no_argument() {
    assert_eq!(single_arg_generic_type(&word("Option"), "Option"), None);
    assert_eq!(single_arg_generic_type(&word("String"), "String"), None);
}

#[test]
fn two_arguments_are_not_a_single_one() {
    let ty = generic(
        "Option",
        vec![GenericArgument::Type(word("A")), GenericArgument::Type(word("B"))],
    );
    assert_eq!(single_arg_generic_type(&ty, "Option"), None);
    let none = generic("Vec", vec![]);
    assert_eq!(single_arg_generic_type(&none, "Vec"), None);
}

#[test]
fn an_argument_that_is_no_type_does_not_count() {
    let ty = generic("Vec", vec![GenericArgument::Other("'a".to_string())]);
    assert_eq!(single_arg_generic_type(&ty, "Vec"), None);
}

#[test]
fn a_longer_path_is_not_recognized() {
    let ty = TypeExpr::Path(Path {
        leading_colon: false,
        segments: vec![
            segment("std", PathArguments::Bare),
            segment("option", PathArguments::Bare),
            segment(
                "Option",
                PathArguments::AngleBracketed(vec![GenericArgument::Type(word("String"))]),
            ),
        ],
    });
    assert_eq!(single_arg_generic_type(&ty, "Option"), None);
    assert_eq!(classify(&ty), TypeShape::Plain(&ty));
}

#[test]
fn round_brackets_are_not_generic_arguments() {
    let ty = TypeExpr::Path(Path {
        leading_colon: false,
        segments: vec![segment("Vec", PathArguments::Parenthesized("(u8)".to_string()))],
    });
    assert_eq!(single_arg_generic_type(&ty, "Vec"), None);
}

#[test]
fn a_type_that_is_no_path_has_no_argument() {
    let ty = TypeExpr::Other("&'static Option<u8>".to_string());
    assert_eq!(single_arg_generic_type(&ty, "Option"), None);
    assert_eq!(classify(&ty), TypeShape::Plain(&ty));
}

#[test]
fn a_leading_colon_does_not_hide_the_wrapper() {
    let ty = TypeExpr::Path(Path {
        leading_colon: true,
        segments: vec![segment(
            "Option",
            PathArguments::AngleBracketed(vec![GenericArgument::Type(word("u8"))]),
        )],
    });
    assert_eq!(single_arg_generic_type(&ty, "Option"), Some(&word("u8")));
}

#[test]
fn the_target_is_compared_exactly() {
    let ty = wrapped("Options", word("u8"));
    assert_eq!(single_arg_generic_type(&ty, "Option"), None);
    let lower = wrapped("vec", word("u8"));
    assert_eq!(single_arg_generic_type(&lower, "Vec"), None);
    assert_eq!(classify(&lower), TypeShape::Plain(&lower));
}

#[test]
fn classify_tells_the_three_shapes_apart() {
    let plain = word("String");
    let optional = wrapped("Option", word("String"));
    let list = wrapped("Vec", word("String"));
    let inner = word("String");
    assert_eq!(classify(&plain), TypeShape::Plain(&plain));
    assert_eq!(classify(&optional), TypeShape::Optional(&inner));
    assert_eq!(classify(&list), TypeShape::List(&inner));
}

#[test]
fn classify_looks_at_the_outermost_wrapper_only() {
    let ty = wrapped("Option", wrapped("Vec", word("u8")));
    assert_eq!(classify(&ty), TypeShape::Optional(&wrapped("Vec", word("u8"))));
    let boxed = wrapped("Box", wrapped("Vec", word("u8")));
    assert_eq!(classify(&boxed), TypeShape::Plain(&boxed));
}

#[test]
fn a_copy_of_a_type_is_equal_to_it() {
    let ty = TypeExpr::Path(Path {
        leading_colon: true,
        segments: vec![
            segment("a", PathArguments::Bare),
            segment(
                "B",
                PathArguments::AngleBracketed(vec![
                    GenericArgument::Other("'x".to_string()),
                    GenericArgument::Type(wrapped("Vec", TypeExpr::Other("&str".to_string()))),
                ]),
            ),
            segment("Fn", PathArguments::Parenthesized("(u8) -> u8".to_string())),
        ],
    });
    assert_eq!(ty.clone(), ty);
    assert_eq!(Visibility::Restricted("pub(crate)".to_string()).clone(), Visibility::Restricted("pub(crate)".to_string()));
}

#[test]
fn path_is_ident_wants_one_bare_word() {
    assert!(ident_path("builder").is_ident("builder"));
    assert!(!ident_path("builders").is_ident("builder"));
    let colon = Path { leading_colon: true, segments: vec![segment("builder", PathArguments::Bare)] };
    assert!(!colon.is_ident("builder"));
    let two = Path {
        leading_colon: false,
        segments: vec![segment("a", PathArguments::Bare), segment("builder", PathArguments::Bare)],
    };
    assert!(!two.is_ident("builder"));
    let args = Path {
        leading_colon: false,
        segments: vec![segment("builder", PathArguments::AngleBracketed(vec![]))],
    };
    assert!(!args.is_ident("builder"));
    let empty = Path { leading_colon: false, segments: vec![] };
    assert!(!empty.is_ident("builder"));
}

#[test]
fn field_without_attributes_has_no_builder_attr() {
    let f = Field { attrs: vec![], ident: "a".to_string(), ty: word("u8") };
    assert_eq!(has_builder_attr(&f), None);
}

#[test]
fn the_first_builder_attr_is_found() {
    let first = attr("builder", Meta::List(each_tokens("x")));
    let second = attr("builder", Meta::List(each_tokens("y")));
    let f = Field {
        attrs: vec![attr("doc", Meta::NameValue), first.clone(), attr("serde", Meta::Path), second],
        ident: "a".to_string(),
        ty: word("u8"),
    };
    assert_eq!(has_builder_attr(&f), Some(&first));
}

#[test]
fn other_attributes_are_passed_over() {
    let f = Field {
        attrs: vec![attr("doc", Meta::NameValue), attr("Builder", Meta::List(each_tokens("x")))],
        ident: "a".to_string(),
        ty: word("u8"),
    };
    assert_eq!(has_builder_attr(&f), None);
}

#[test]
fn each_equals_string_is_accepted() {
    let tokens = each_tokens("arg");
    assert_eq!(parse_builder_attr_arg(&tokens), Ok(&lit("arg")));
}

#[test]
fn arguments_must_start_with_each() {
    assert_eq!(parse_builder_attr_arg(&vec![]), Err(ClauseError::ExpectedEach));
    let other = vec![Token::Ident("eac".to_string()), Token::Punct('='), Token::Str(lit("arg"))];
    assert_eq!(parse_builder_attr_arg(&other), Err(ClauseError::ExpectedEach));
    let string_first = vec![Token::Str(lit("each")), Token::Punct('='), Token::Str(lit("arg"))];
    assert_eq!(parse_builder_attr_arg(&string_first), Err(ClauseError::ExpectedEach));
    let raw = vec![Token::Ident("r#each".to_string()), Token::Punct('='), Token::Str(lit("arg"))];
    assert_eq!(parse_builder_attr_arg(&raw), Err(ClauseError::ExpectedEach));
}

#[test]
fn each_must_be_followed_by_equals() {
    let alone = vec![Token::Ident("each".to_string())];
    assert_eq!(parse_builder_attr_arg(&alone), Err(ClauseError::ExpectedEquals));
    let colon = vec![Token::Ident("each".to_string()), Token::Punct(':'), Token::Str(lit("arg"))];
    assert_eq!(parse_builder_attr_arg(&colon), Err(ClauseError::ExpectedEquals));
    let no_sign = vec![Token::Ident("each".to_string()), Token::Str(lit("arg"))];
    assert_eq!(parse_builder_attr_arg(&no_sign), Err(ClauseError::ExpectedEquals));
}

#[test]
fn equals_must_be_followed_by_a_string() {
    let nothing = vec![Token::Ident("each".to_string()), Token::Punct('=')];
    assert_eq!(parse_builder_attr_arg(&nothing), Err(ClauseError::ExpectedString));
    let a_word = vec![Token::Ident("each".to_string()), Token::Punct('='), Token::Ident("arg".to_string())];
    assert_eq!(parse_builder_attr_arg(&a_word), Err(ClauseError::ExpectedString));
    let other = vec![Token::Ident("each".to_string()), Token::Punct('='), Token::Other];
    assert_eq!(parse_builder_attr_arg(&other), Err(ClauseError::ExpectedString));
    let doubled = vec![
        Token::Ident("each".to_string()),
        Token::Punct('='),
        Token::Punct('='),
        Token::Str(lit("arg")),
    ];
    assert_eq!(parse_builder_attr_arg(&doubled), Err(ClauseError::ExpectedString));
}

#[test]
fn nothing_may_follow_the_string() {
    let mut tokens = each_tokens("arg");
    tokens.push(Token::Punct(','));
    assert_eq!(parse_builder_attr_arg(&tokens), Err(ClauseError::UnexpectedToken));
}

#[test]
fn the_first_fault_is_reported() {
    let tokens = vec![Token::Ident("all".to_string()), Token::Punct(':'), Token::Other, Token::Other];
    assert_eq!(parse_builder_attr_arg(&tokens), Err(ClauseError::ExpectedEach));
    let tokens = vec![Token::Ident("each".to_string()), Token::Punct(':'), Token::Other, Token::Other];
    assert_eq!(parse_builder_attr_arg(&tokens), Err(ClauseError::ExpectedEquals));
    let tokens = vec![Token::Ident("each".to_string()), Token::Punct('='), Token::Other, Token::Other];
    assert_eq!(parse_builder_attr_arg(&tokens), Err(ClauseError::ExpectedString));
}

#[test]
fn an_attribute_without_brackets_has_no_arguments() {
    assert_eq!(attr("builder", Meta::Path).parse_args(), Err(ClauseError::MissingArguments));
    assert_eq!(attr("builder", Meta::NameValue).parse_args(), Err(ClauseError::ExpectedParentheses));
    assert_eq!(attr("builder", Meta::List(each_tokens("x"))).parse_args(), Ok(&lit("x")));
    assert_eq!(attr("builder", Meta::List(vec![])).parse_args(), Err(ClauseError::ExpectedEach));
}

#[test]
fn a_string_literal_holds_an_identifier_or_none() {
    assert_eq!(lit("arg").parse(), Some("arg".to_string()));
    assert_eq!(lit("_x1").parse(), Some("_x1".to_string()));
    assert_eq!(lit(" arg ").parse(), Some("arg".to_string()));
    assert_eq!(lit("fn").parse(), None);
    assert_eq!(lit("_").parse(), None);
    assert_eq!(lit("").parse(), None);
    assert_eq!(lit("a b").parse(), None);
    assert_eq!(lit("a-b").parse(), None);
    assert_eq!(lit("1a").parse(), None);
    assert_eq!(lit("\"").parse(), None);
}

#[test]
fn a_suffix_spoils_the_literal() {
    let l = StrLit { value: "arg".to_string(), suffix: "x".to_string() };
    assert_eq!(l.parse(), None);
}

#[test]
fn clause_errors_have_their_messages() {
    assert_eq!(ClauseError::ExpectedEach.message(), "expected `each`");
    assert_eq!(ClauseError::ExpectedEquals.message(), "expected `=`");
    assert_eq!(ClauseError::ExpectedString.message(), "expected string literal");
    assert_eq!(ClauseError::UnexpectedToken.message(), "unexpected token");
    assert_eq!(ClauseError::InvalidAlias.message(), "expected identifier");
    assert_eq!(ClauseError::NotAList.message(), "expected a field of type `Vec<...>`");
    assert_eq!(
        ClauseError::MissingArguments.message(),
        "expected attribute arguments in parentheses: #[builder(...)]"
    );
    assert_eq!(ClauseError::ExpectedParentheses.message(), "expected parentheses: #[builder(...)]");
}

#[test]
fn the_value_of_a_literal_without_suffix_is_read() {
    assert_eq!(lit(" arg ").text(), Some(" arg "));
    assert_eq!(lit("").text(), Some(""));
    let suffixed = StrLit { value: "arg".to_string(), suffix: "x".to_string() };
    assert_eq!(suffixed.text(), None);
}
