use strid_macros::attr_grammar::{parse_attr_args, AttrArg};
use strid_macros::check_mode::{CheckConflict, CheckMode, IndefiniteCheckMode};
use strid_macros::codegen::{
    declared_name, get_field_info, infer_ref_type_from_owned_name, Capability, Check, FieldError,
    How, Item, Side,
};
use strid_macros::expand::{plan_braid, plan_braid_ref, Diagnostic};
use strid_macros::grammar::{parse_item_struct, Fields, Type};
use strid_macros::params::{
    ConfigError, DelegatingImplOption, ImplOption, Params, ParamsRef, StdLib,
};
use strid_macros::symbol::{get_lit_str, Symbol};
use strid_macros::token::{span_end, Delimiter, SpanEnd, Token};

fn ident(s: &str) -> Token {
    Token::Ident(s.to_string())
}

fn punct(c: char) -> Token {
    Token::Punct(c, false)
}

fn lit(s: &str) -> Token {
    Token::Literal(s.to_string())
}

fn paren(v: Vec<Token>) -> Token {
    Token::Group(Delimiter::Parenthesis, v)
}

fn brace(v: Vec<Token>) -> Token {
    Token::Group(Delimiter::Brace, v)
}

/// `name = "value"`
fn name_value(name: &str, value: &str) -> Vec<Token> {
    vec![ident(name), punct('='), lit(&format!("\"{value}\""))]
}

fn join(parts: Vec<Vec<Token>>) -> Vec<Token> {
    let mut out = Vec::new();
    for (i, p) in parts.into_iter().enumerate() {
        if i > 0 {
            out.push(punct(','));
        }
        out.extend(p);
    }
    out
}

/// `pub struct <name>(String);`
fn tuple_struct(name: &str) -> Vec<Token> {
    vec![
        ident("pub"),
        ident("struct"),
        ident(name),
        paren(vec![ident("String")]),
        punct(';'),
    ]
}

fn pair_items(args: Vec<Token>, name: &str) -> Vec<Item> {
    match plan_braid(args, tuple_struct(name)) {
        Ok(g) => g.generate(),
        Err(_) => panic!("plan failed"),
    }
}

fn pair_error(args: Vec<Token>) -> ConfigError {
    match plan_braid(args, tuple_struct("FooBuf")) {
        Err(Diagnostic::Config(e)) => e,
        _ => panic!("expected a configuration error"),
    }
}

fn ref_error(args: Vec<Token>) -> ConfigError {
    match plan_braid_ref(args, tuple_struct("Foo")) {
        Err(Diagnostic::Config(e)) => e,
        _ => panic!("expected a configuration error"),
    }
}

#[test]
fn default_pair_has_every_basic_item() {
    let items = pair_items(vec![], "FooBuf");
    for it in [
        Item::Constructor(Side::Owned, true, Check::Unchecked),
        Item::Constructor(Side::Borrowed, true, Check::Unchecked),
        Item::Accessor(Side::Owned),
        Item::Accessor(Side::Borrowed),
        Item::IntoInner,
        Item::OwnedToBorrowed,
        Item::BorrowedToOwned,
        Item::Impl(Side::Owned, Capability::Clone, How::Direct),
        Item::Impl(Side::Owned, Capability::Debug, How::Direct),
        Item::Impl(Side::Borrowed, Capability::Debug, How::Direct),
        Item::Impl(Side::Owned, Capability::Display, How::Direct),
        Item::Impl(Side::Borrowed, Capability::Display, How::Direct),
        Item::Impl(Side::Owned, Capability::Ord, How::Direct),
        Item::Impl(Side::Borrowed, Capability::Ord, How::Direct),
    ] {
        assert!(items.contains(&it), "missing {it:?}");
    }
    assert!(!items
        .iter()
        .any(|i| matches!(i, Item::Impl(_, Capability::Serialize | Capability::Deserialize, _))));
}

#[test]
fn default_plan_options() {
    let g = match plan_braid(vec![], tuple_struct("FooBuf")) {
        Ok(g) => g,
        Err(_) => panic!("plan failed"),
    };
    assert_eq!(g.impls.clone, ImplOption::Implement);
    assert_eq!(g.impls.debug, DelegatingImplOption::Implement);
    assert_eq!(g.impls.display, DelegatingImplOption::Implement);
    assert_eq!(g.impls.ord, DelegatingImplOption::Implement);
    assert_eq!(g.impls.serde, ImplOption::Omit);
    assert!(g.expose_inner);
    assert!(!g.std_lib.no_std);
    assert!(matches!(g.check_mode, CheckMode::Unchecked));
}

#[test]
fn infers_name_from_buf_suffix() {
    assert_eq!(infer_ref_type_from_owned_name(&"FooBuf".to_string()), "Foo");
    assert_eq!(infer_ref_type_from_owned_name(&"UsernameBuf".to_string()), "Username");
}

#[test]
fn infers_name_from_string_suffix() {
    assert_eq!(infer_ref_type_from_owned_name(&"FooString".to_string()), "Foo");
}

#[test]
fn infers_name_with_ref_suffix() {
    assert_eq!(infer_ref_type_from_owned_name(&"Bar".to_string()), "BarRef");
    assert_eq!(infer_ref_type_from_owned_name(&"Buf".to_string()), "BufRef");
}

#[test]
fn plan_uses_inferred_and_explicit_names() {
    let g = plan_braid(vec![], tuple_struct("FooString")).ok().unwrap();
    assert_eq!(g.ref_ident, "Foo");
    let g = plan_braid(name_value("ref_name", "Other"), tuple_struct("FooBuf"))
        .ok()
        .unwrap();
    assert_eq!(g.ref_ident, "Other");
    assert!(matches!(g.ref_ty, Type::Source(ref s) if s == "Other"));
}

#[test]
fn validator_then_normalizer_conflicts() {
    let args = join(vec![vec![ident("validator")], vec![ident("normalizer")]]);
    assert!(matches!(pair_error(args), ConfigError::Check(CheckConflict::Exclusive)));
}

#[test]
fn validator_twice_conflicts() {
    let args = join(vec![vec![ident("validator")], name_value("validator", "V")]);
    assert!(matches!(pair_error(args), ConfigError::Check(CheckConflict::ValidatorTwice)));
}

#[test]
fn normalizer_twice_conflicts() {
    let args = join(vec![name_value("normalizer", "N"), vec![ident("normalizer")]]);
    assert!(matches!(pair_error(args), ConfigError::Check(CheckConflict::NormalizerTwice)));
}

#[test]
fn check_mode_state_machine() {
    let mut m = IndefiniteCheckMode::Unchecked;
    assert!(m.try_set_normalizer(None).is_ok());
    assert!(matches!(m.try_set_validator(None), Err(CheckConflict::Exclusive)));
    assert!(matches!(m.try_set_normalizer(None), Err(CheckConflict::NormalizerTwice)));
    match m.infer_validator_if_missing(&"Name".to_string()) {
        CheckMode::Normalize(Type::Tokens(t)) => {
            assert_eq!(t.len(), 1);
            assert!(matches!(&t[0], Token::Ident(s) if s == "Name"));
        }
        _ => panic!("expected a normalizer named after the type"),
    }
}

#[test]
fn explicit_validator_type_is_kept() {
    let g = plan_braid(name_value("validator", "Checker"), tuple_struct("FooBuf"))
        .ok()
        .unwrap();
    assert!(matches!(g.check_mode, CheckMode::Validate(Type::Source(ref s)) if s == "Checker"));
}

#[test]
fn debug_owned_delegates_to_borrowed() {
    let items = pair_items(name_value("debug", "owned"), "FooBuf");
    assert!(items.contains(&Item::Impl(Side::Owned, Capability::Debug, How::ViaBorrowed)));
    assert!(items.contains(&Item::Impl(Side::Borrowed, Capability::Debug, How::Direct)));
    assert!(!items.contains(&Item::Impl(Side::Owned, Capability::Debug, How::Direct)));
}

#[test]
fn debug_omit_removes_debug() {
    let items = pair_items(name_value("debug", "omit"), "FooBuf");
    assert!(!items.iter().any(|i| matches!(i, Item::Impl(_, Capability::Debug, _))));
    assert!(items.contains(&Item::Impl(Side::Owned, Capability::Display, How::Direct)));
}

#[test]
fn two_fields_are_refused() {
    let input = vec![
        ident("struct"),
        ident("FooBuf"),
        paren(vec![ident("String"), punct(','), ident("u8")]),
        punct(';'),
    ];
    assert!(matches!(
        plan_braid(vec![], input),
        Err(Diagnostic::Fields(FieldError::TooManyFields))
    ));
}

#[test]
fn unit_struct_gets_string_field() {
    let input = vec![ident("struct"), ident("FooBuf"), punct(';')];
    let g = plan_braid(vec![], input).ok().unwrap();
    let (ty, name, attrs) = get_field_info(&g.body.fields).ok().unwrap();
    assert!(name.is_none());
    assert!(attrs.is_empty());
    match ty {
        Type::Tokens(t) => {
            assert_eq!(t.len(), 1);
            assert!(matches!(&t[0], Token::Ident(s) if s == "String"));
        }
        _ => panic!("expected tokens"),
    }
}

#[test]
fn ref_only_unit_struct_is_refused() {
    let input = vec![ident("struct"), ident("Element"), punct(';')];
    assert!(matches!(
        plan_braid_ref(vec![], input),
        Err(Diagnostic::Fields(FieldError::UnitStruct))
    ));
}

#[test]
fn empty_field_list_is_refused() {
    let input = vec![ident("struct"), ident("FooBuf"), brace(vec![])];
    assert!(matches!(
        plan_braid(vec![], input),
        Err(Diagnostic::Fields(FieldError::NoField))
    ));
}

#[test]
fn unknown_option_named_in_pair_mode() {
    match pair_error(name_value("frobnicate", "x")) {
        ConfigError::Unsupported(n) => assert_eq!(n, "frobnicate"),
        _ => panic!("expected unsupported"),
    }
}

#[test]
fn unknown_option_named_in_ref_mode() {
    match ref_error(name_value("frobnicate", "x")) {
        ConfigError::Unsupported(n) => assert_eq!(n, "frobnicate"),
        _ => panic!("expected unsupported"),
    }
}

#[test]
fn ref_only_refuses_clone_and_ref_name() {
    match ref_error(name_value("clone", "impl")) {
        ConfigError::Unsupported(n) => assert_eq!(n, "clone"),
        _ => panic!("expected unsupported"),
    }
    match ref_error(name_value("ref_name", "Foo")) {
        ConfigError::Unsupported(n) => assert_eq!(n, "ref_name"),
        _ => panic!("expected unsupported"),
    }
    match ref_error(vec![ident("no_expose")]) {
        ConfigError::Unsupported(n) => assert_eq!(n, "no_expose"),
        _ => panic!("expected unsupported"),
    }
}

#[test]
fn ref_only_refuses_owned_mode() {
    assert!(matches!(
        ref_error(name_value("debug", "owned")),
        ConfigError::UnknownMode(Symbol::Debug)
    ));
}

#[test]
fn ref_only_serde_no_std() {
    let args = join(vec![vec![ident("serde")], vec![ident("no_std")]]);
    let g = plan_braid_ref(args, tuple_struct("Element")).ok().unwrap();
    assert!(g.std_lib.no_std);
    let items = g.generate();
    assert!(items.contains(&Item::Impl(Side::Borrowed, Capability::Serialize, How::Direct)));
    assert!(items.contains(&Item::Impl(Side::Borrowed, Capability::Deserialize, How::Direct)));
    assert!(!items.iter().any(|i| matches!(i, Item::Impl(Side::Owned, _, _))));
}

#[test]
fn serde_with_normalizer_plans_both_sides() {
    let args = join(vec![vec![ident("serde")], name_value("normalizer", "Lower")]);
    let g = plan_braid(args, tuple_struct("FooBuf")).ok().unwrap();
    assert!(g.check_mode.has_check());
    assert!(matches!(g.check_mode, CheckMode::Normalize(_)));
    let items = g.generate();
    assert!(items.contains(&Item::Impl(Side::Owned, Capability::Deserialize, How::Direct)));
    assert!(items.contains(&Item::Impl(Side::Owned, Capability::Serialize, How::Direct)));
}

#[test]
fn serde_omit_and_unknown_word() {
    let items = pair_items(name_value("serde", "omit"), "FooBuf");
    assert!(!items.iter().any(|i| matches!(i, Item::Impl(_, Capability::Serialize, _))));
    assert!(matches!(
        pair_error(name_value("serde", "maybe")),
        ConfigError::UnknownMode(Symbol::Serde)
    ));
}

#[test]
fn mode_option_errors() {
    assert!(matches!(
        pair_error(vec![ident("debug")]),
        ConfigError::ExpectedValue(Symbol::Debug)
    ));
    assert!(matches!(
        pair_error(vec![ident("ord"), punct('='), lit("5")]),
        ConfigError::NotAString(Symbol::Ord)
    ));
    assert!(matches!(
        pair_error(name_value("clone", "owned")),
        ConfigError::UnknownMode(Symbol::Clone)
    ));
    assert!(matches!(
        pair_error(vec![ident("ref_attr")]),
        ConfigError::ExpectedList(Symbol::RefAttr)
    ));
}

#[test]
fn ref_name_must_lex() {
    assert!(matches!(
        pair_error(name_value("ref_name", "Foo(")),
        ConfigError::BadType(Symbol::RefName)
    ));
}

#[test]
fn no_expose_hides_accessors() {
    let items = pair_items(vec![ident("no_expose")], "FooBuf");
    assert!(items.contains(&Item::Constructor(Side::Owned, false, Check::Unchecked)));
    assert!(!items.contains(&Item::Accessor(Side::Owned)));
    assert!(!items.contains(&Item::IntoInner));
}

#[test]
fn clone_omit_drops_borrowed_to_owned() {
    let items = pair_items(name_value("clone", "omit"), "FooBuf");
    assert!(!items.contains(&Item::BorrowedToOwned));
    assert!(items.contains(&Item::OwnedToBorrowed));
}

#[test]
fn docs_and_attribute_lists_are_kept() {
    let args = join(vec![
        name_value("ref_doc", "first"),
        name_value("ref_doc", "second"),
        vec![ident("ref_attr"), paren(vec![ident("derive"), paren(vec![ident("Hash")])])],
        vec![ident("owned_attr"), paren(vec![ident("must_use")])],
    ]);
    let g = plan_braid(args, tuple_struct("FooBuf")).ok().unwrap();
    assert_eq!(g.ref_doc, vec!["\"first\"".to_string(), "\"second\"".to_string()]);
    assert_eq!(g.ref_attrs.len(), 1);
    assert_eq!(g.ref_attrs[0].len(), 2);
    assert_eq!(g.owned_attrs.len(), 1);
}

#[test]
fn no_std_names_core_and_alloc() {
    let s = StdLib::no_std();
    assert_eq!(s.core_crate(), "core");
    assert_eq!(s.alloc_crate(), "alloc");
    let d = StdLib::standard();
    assert_eq!(d.core_crate(), "std");
    assert_eq!(d.alloc_crate(), "std");
    let g = plan_braid(vec![ident("no_std")], tuple_struct("FooBuf")).ok().unwrap();
    assert!(g.std_lib.no_std);
}

#[test]
fn attr_args_shapes() {
    let args = join(vec![
        vec![ident("serde")],
        name_value("ref_doc", "x"),
        vec![ident("ref_attr"), paren(vec![ident("derive")])],
    ]);
    let mut toks = args;
    toks.push(punct(','));
    let list = parse_attr_args(toks).ok().unwrap();
    assert_eq!(list.len(), 3);
    assert!(matches!(&list[0], AttrArg::Path(n) if n == "serde"));
    assert!(matches!(&list[1], AttrArg::NameValue(n, l) if n == "ref_doc" && l == "\"x\""));
    assert!(matches!(&list[2], AttrArg::List(n, c) if n == "ref_attr" && c.len() == 1));
    assert_eq!(list[1].name(), "ref_doc");
    assert_eq!(list[1].value().unwrap(), "\"x\"");
    assert!(list[0].value().is_none());
    assert_eq!(list[2].list_contents().unwrap().len(), 1);
    assert!(list[1].list_contents().is_none());
}

#[test]
fn attr_args_malformed() {
    assert!(parse_attr_args(vec![ident("a"), ident("b")]).is_err());
    assert!(parse_attr_args(vec![ident("a"), punct('=')]).is_err());
    assert!(parse_attr_args(vec![lit("1")]).is_err());
    assert!(parse_attr_args(vec![]).ok().unwrap().is_empty());
    assert!(matches!(plan_braid(vec![ident("a"), ident("b")], tuple_struct("A")), Err(Diagnostic::Args(_))));
}

#[test]
fn literal_string_contents() {
    assert_eq!(get_lit_str(Symbol::Debug, "\"impl\"").ok().unwrap(), "impl");
    assert_eq!(get_lit_str(Symbol::Debug, "\"\"").ok().unwrap(), "");
    assert!(matches!(get_lit_str(Symbol::Debug, "5"), Err(Symbol::Debug)));
    assert!(matches!(get_lit_str(Symbol::Debug, "\""), Err(Symbol::Debug)));
}

#[test]
fn symbol_lookup_round_trip() {
    for s in [Symbol::Clone, Symbol::RefName, Symbol::NoExpose, Symbol::Normalizer] {
        assert_eq!(Symbol::lookup(s.as_str()), Some(s));
    }
    assert_eq!(Symbol::lookup("frobnicate"), None);
}

#[test]
fn span_skips_angle_brackets_and_arrows() {
    // HashMap<K, V>, u8
    let toks = vec![
        ident("HashMap"),
        punct('<'),
        ident("K"),
        punct(','),
        ident("V"),
        punct('>'),
        punct(','),
        ident("u8"),
    ];
    assert_eq!(span_end(&toks, 0, SpanEnd::Type), 6);
    // fn() -> u8 >
    let toks = vec![
        ident("fn"),
        paren(vec![]),
        Token::Punct('-', true),
        punct('>'),
        ident("u8"),
        punct('>'),
    ];
    assert_eq!(span_end(&toks, 0, SpanEnd::Angle), 5);
    assert_eq!(span_end(&toks, 6, SpanEnd::Type), 6);
}

#[test]
fn parses_generics_where_and_named_field() {
    // #[derive(Hash)] pub(crate) struct Name<T: Into<u8>> where T: Copy { #[serde(x)] pub inner: Vec<T>, }
    let input = vec![
        punct('#'),
        Token::Group(Delimiter::Bracket, vec![ident("derive"), paren(vec![ident("Hash")])]),
        ident("pub"),
        paren(vec![ident("crate")]),
        ident("struct"),
        ident("Name"),
        punct('<'),
        ident("T"),
        punct(':'),
        ident("Into"),
        punct('<'),
        ident("u8"),
        punct('>'),
        punct('>'),
        ident("where"),
        ident("T"),
        punct(':'),
        ident("Copy"),
        brace(vec![
            punct('#'),
            Token::Group(Delimiter::Bracket, vec![ident("serde")]),
            ident("pub"),
            ident("inner"),
            punct(':'),
            ident("Vec"),
            punct('<'),
            ident("T"),
            punct('>'),
            punct(','),
        ]),
    ];
    let item = parse_item_struct(input).ok().unwrap();
    assert_eq!(item.ident, "Name");
    assert_eq!(item.attrs.len(), 1);
    assert!(!item.attrs[0].inner);
    assert_eq!(item.generics.as_ref().unwrap().len(), 6);
    assert_eq!(item.where_clause.as_ref().unwrap().len(), 3);
    assert!(!item.is_empty());
    match &item.fields {
        Fields::Named(v) => {
            assert_eq!(v.len(), 1);
            assert_eq!(v[0].ident, "inner");
            assert_eq!(v[0].attrs.len(), 1);
            assert!(v[0].vis.is_some());
            assert!(matches!(&v[0].ty, Type::Tokens(t) if t.len() == 4));
        }
        _ => panic!("expected named fields"),
    }
    let (_, name, _) = get_field_info(&item.fields).ok().unwrap();
    assert_eq!(name.unwrap(), "inner");
}

#[test]
fn declaration_errors() {
    assert!(parse_item_struct(vec![ident("enum"), ident("A"), punct(';')]).is_err());
    assert!(parse_item_struct(vec![ident("struct")]).is_err());
    assert!(parse_item_struct(vec![ident("struct"), ident("A"), paren(vec![]), ident("x")]).is_err());
    assert!(matches!(
        plan_braid(vec![], vec![ident("struct"), ident("A")]),
        Err(Diagnostic::Struct(_))
    ));
}

#[test]
fn params_from_args_directly() {
    let p = Params::from_args(vec![
        AttrArg::NameValue("display".to_string(), "\"owned\"".to_string()),
        AttrArg::Path("serde".to_string()),
    ])
    .ok()
    .unwrap();
    assert_eq!(p.impls.display, DelegatingImplOption::OwnedOnly);
    assert_eq!(p.impls.serde, ImplOption::Implement);
    let r = ParamsRef::from_args(vec![AttrArg::NameValue(
        "ord".to_string(),
        "\"omit\"".to_string(),
    )])
    .ok()
    .unwrap();
    assert_eq!(r.impls.ord, DelegatingImplOption::Omit);
    assert_eq!(DelegatingImplOption::from_plain(ImplOption::Omit), DelegatingImplOption::Omit);
}

#[test]
fn ref_only_validator_defaults_to_own_type() {
    let g = plan_braid_ref(vec![ident("validator")], tuple_struct("Element")).ok().unwrap();
    match &g.check_mode {
        CheckMode::Validate(Type::Tokens(t)) => {
            assert_eq!(t.len(), 1);
            assert!(matches!(&t[0], Token::Ident(s) if s == "Element"));
        }
        _ => panic!("expected a validator named after the type"),
    }
    let twice = join(vec![vec![ident("validator")], vec![ident("validator")]]);
    assert!(matches!(ref_error(twice), ConfigError::Check(CheckConflict::ValidatorTwice)));
}

#[test]
fn serde_impl_word_enables_serialization() {
    let items = pair_items(name_value("serde", "impl"), "FooBuf");
    assert!(items.contains(&Item::Impl(Side::Borrowed, Capability::Serialize, How::Direct)));
    assert!(items.contains(&Item::Impl(Side::Owned, Capability::Deserialize, How::Direct)));
}

#[test]
fn inner_attribute_and_restricted_visibility() {
    // #![allow(x)] pub(crate) struct A(#[serde(y)] pub String);
    let input = vec![
        punct('#'),
        punct('!'),
        Token::Group(Delimiter::Bracket, vec![ident("allow"), paren(vec![ident("x")])]),
        ident("pub"),
        paren(vec![ident("crate")]),
        ident("struct"),
        ident("A"),
        paren(vec![
            punct('#'),
            Token::Group(Delimiter::Bracket, vec![ident("serde"), paren(vec![ident("y")])]),
            ident("pub"),
            ident("String"),
        ]),
        punct(';'),
    ];
    let item = parse_item_struct(input).ok().unwrap();
    assert_eq!(item.attrs.len(), 1);
    assert!(item.attrs[0].inner);
    assert!(!item.attrs[0].is_doc());
    assert!(matches!(&item.vis, Some(strid_macros::grammar::Vis::PubIn(c)) if c.len() == 1));
    match &item.fields {
        Fields::Unnamed(v) => {
            assert_eq!(v.len(), 1);
            assert_eq!(v[0].attrs.len(), 1);
            assert!(v[0].vis.is_some());
        }
        _ => panic!("expected unnamed fields"),
    }
}

#[test]
fn explicit_ref_name_takes_leading_identifier() {
    let g = plan_braid(name_value("ref_name", "Foo<'a>"), tuple_struct("FooBuf")).ok().unwrap();
    assert_eq!(g.ref_ident, "Foo");
    assert!(matches!(g.ref_ty, Type::Source(ref s) if s == "Foo<'a>"));
    let g = plan_braid(name_value("ref_name", "::m::Bar"), tuple_struct("FooBuf")).ok().unwrap();
    assert_eq!(g.ref_ident, "UnknownType");
    assert_eq!(declared_name(&Type::Source("Name_2 <T>".to_string())), "Name_2");
    assert_eq!(declared_name(&Type::Source("9abc".to_string())), "UnknownType");
    assert_eq!(declared_name(&Type::Tokens(vec![ident("Other"), punct('<')])), "Other");
}

#[test]
fn constructors_follow_the_check_mode() {
    let items = pair_items(name_value("validator", "V"), "FooBuf");
    assert!(items.contains(&Item::Constructor(Side::Owned, true, Check::Validated)));
    assert!(items.contains(&Item::Constructor(Side::Borrowed, true, Check::Validated)));
    let items = pair_items(vec![ident("normalizer")], "FooBuf");
    assert!(items.contains(&Item::Constructor(Side::Owned, true, Check::Normalized)));
    assert!(items.contains(&Item::Constructor(Side::Borrowed, true, Check::Validated)));
    let g = plan_braid_ref(vec![ident("validator")], tuple_struct("Element")).ok().unwrap();
    assert!(g.generate().contains(&Item::Constructor(Side::Borrowed, true, Check::Validated)));
}

#[test]
fn plan_keeps_declaration_header() {
    // #[derive(Hash)] pub struct Name<T> where T: Copy (T);
    let input = vec![
        punct('#'),
        Token::Group(Delimiter::Bracket, vec![ident("derive"), paren(vec![ident("Hash")])]),
        ident("pub"),
        ident("struct"),
        ident("NameBuf"),
        punct('<'),
        ident("T"),
        punct('>'),
        ident("where"),
        ident("T"),
        punct(':'),
        ident("Copy"),
        brace(vec![ident("inner"), punct(':'), ident("T")]),
    ];
    let g = plan_braid(vec![], input).ok().unwrap();
    assert_eq!(g.body.attrs.len(), 1);
    assert!(g.body.vis.is_some());
    assert_eq!(g.body.generics.as_ref().unwrap().len(), 1);
    assert_eq!(g.body.where_clause.as_ref().unwrap().len(), 3);
    assert_eq!(g.ref_ident, "Name");
}
