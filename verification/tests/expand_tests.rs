use kdl_derive::expand::{
    expand_from_kdl, expand_to_kdl, field_from_expr, field_from_kdl_code, field_to_kdl_code,
    field_to_tokens, from_kdl_code, to_kdl_code,
};
use kdl_derive::model::{
    Attribute, Container, Data, DefaultSource, DeriveError, DeriveInput, Field, FieldInput,
    FieldKind, GenericArgument, GenericsText, Meta, PathArguments, PathSegment, TypeShape,
};
use kdl_derive::template::{FROM_KDL_HEAD, TO_KDL_HEAD, TO_KDL_OPEN, TO_KDL_TAIL};
use kdl_derive::text::unraw_ident;
use kdl_derive::{derive_from_kdl, derive_to_kdl};

fn plain(name: &str) -> TypeShape {
    TypeShape {
        text: name.to_string(),
        path_last: Some(PathSegment { ident: name.to_string(), args: PathArguments::NoArguments }),
    }
}

fn wrapped(wrapper: &str, inner: TypeShape) -> TypeShape {
    TypeShape {
        text: format!("{} < {} >", wrapper, inner.text),
        path_last: Some(PathSegment {
            ident: wrapper.to_string(),
            args: PathArguments::AngleBracketed(vec![GenericArgument::Type(inner)]),
        }),
    }
}

fn model_field(ident: &str, name: &str, ty: &str, optional: bool, kind: FieldKind) -> Field {
    Field {
        ident: ident.to_string(),
        name: name.to_string(),
        inner_ty: plain(ty),
        optional,
        kind,
        default: DefaultSource::Unset,
    }
}

fn no_generics() -> GenericsText {
    GenericsText { impl_generics: String::new(), ty_generics: String::new(), where_clause: String::new() }
}

fn kdl(metas: Vec<Meta>) -> Attribute {
    Attribute { path_ident: Some("kdl".to_string()), metas }
}

fn sample_input() -> DeriveInput {
    DeriveInput {
        ident: "Config".to_string(),
        generics: no_generics(),
        data: Data::NamedStruct(vec![
            FieldInput { ident: "port".to_string(), attrs: vec![], ty: plain("u16") },
            FieldInput {
                ident: "r#type".to_string(),
                attrs: vec![kdl(vec![Meta::Name("kind".to_string())])],
                ty: wrapped("Option", plain("String")),
            },
            FieldInput { ident: "tags".to_string(), attrs: vec![], ty: wrapped("Vec", plain("String")) },
            FieldInput {
                ident: "server".to_string(),
                attrs: vec![kdl(vec![Meta::Child])],
                ty: wrapped("Option", plain("Server")),
            },
            FieldInput {
                ident: "routes".to_string(),
                attrs: vec![kdl(vec![Meta::Child, Meta::DefaultTrait])],
                ty: wrapped("Option", wrapped("Vec", plain("Route"))),
            },
        ]),
    }
}

fn parses_as_items(code: &str) {
    if let Err(e) = syn::parse_file(code) {
        panic!("generated code does not parse: {}\n{}", e, code);
    }
}

#[test]
fn scalar_to_kdl_code() {
    let f = model_field("port", "port", "u16", false, FieldKind::Scalar);
    assert_eq!(
        field_to_kdl_code(&f, "\"port\""),
        "{ let __v = &self.port; let mut __node = ::kdl::KdlNode::new(\"port\"); __node.push(::kdl::KdlEntry::new(__v.__to_kdl_value())); __doc.nodes_mut().push(__node); } "
    );
}

#[test]
fn optional_child_vec_to_kdl_code() {
    let f = model_field("routes", "route", "Route", true, FieldKind::ChildVec);
    assert_eq!(
        field_to_kdl_code(&f, "\"route\""),
        "if let ::core::option::Option::Some(__list) = &self.routes { for __item in __list.iter() { let mut __node = ::kdl::KdlNode::new(\"route\"); __node.set_children(__item.to_kdl_document()); __doc.nodes_mut().push(__node); } } "
    );
}

#[test]
fn scalar_vec_and_child_to_kdl_code() {
    let f = model_field("tags", "tags", "String", false, FieldKind::ScalarVec);
    assert_eq!(
        field_to_kdl_code(&f, "\"tags\""),
        "{ let __list = &self.tags; let mut __node = ::kdl::KdlNode::new(\"tags\"); for __item in __list.iter() { __node.push(::kdl::KdlEntry::new(__item.__to_kdl_value())); } __doc.nodes_mut().push(__node); } "
    );
    let f = model_field("server", "server", "Server", true, FieldKind::Child);
    assert_eq!(
        field_to_kdl_code(&f, "\"server\""),
        "if let ::core::option::Option::Some(__v) = &self.server { let mut __node = ::kdl::KdlNode::new(\"server\"); __node.set_children(__v.to_kdl_document()); __doc.nodes_mut().push(__node); } "
    );
}

#[test]
fn node_name_is_written_as_a_string_literal() {
    let f = model_field("a", "say \"hi\"\\", "u8", false, FieldKind::Scalar);
    let code = field_to_tokens(&f);
    assert!(code.contains("::kdl::KdlNode::new(\"say \\\"hi\\\"\\\\\")"), "{}", code);
    let code = field_from_expr(&f);
    assert!(code.contains("match __doc.get(\"say \\\"hi\\\"\\\\\")"), "{}", code);
}

#[test]
fn scalar_from_kdl_code() {
    let f = model_field("port", "port", "u16", false, FieldKind::Scalar);
    assert_eq!(
        field_from_kdl_code(&f, "\"port\""),
        "match __doc.get(\"port\") { ::core::option::Option::Some(__node) => { match __node.entries().iter().find(|__e| __e.name().is_none()) { ::core::option::Option::Some(__entry) => { match <u16 as __FromKdlValue>::__from_kdl_value(__entry.value()) { ::core::result::Result::Ok(__v) => { ::core::option::Option::Some(__v) } ::core::result::Result::Err(__msg) => { __push!(__entry.span(), __msg); ::core::option::Option::None } } } ::core::option::Option::None => { __push!(__node.span(), format!(\"node `{}` is missing an argument\", \"port\")); ::core::option::Option::None } } } ::core::option::Option::None => { __push!(__doc.span(), format!(\"missing required node `{}`\", \"port\")); ::core::option::Option::None } }"
    );
}

#[test]
fn optional_scalar_vec_from_kdl_code() {
    let f = model_field("tags", "tags", "String", true, FieldKind::ScalarVec);
    let code = field_from_kdl_code(&f, "\"tags\"");
    assert!(code.starts_with("match __doc.get(\"tags\") {"));
    assert!(code.contains("match <String as __FromKdlValue>::__from_kdl_value(__e.value())"));
    assert!(code.ends_with("::core::option::Option::None => { ::core::option::Option::Some(::core::option::Option::None) } }"));
    let required = model_field("tags", "tags", "String", false, FieldKind::ScalarVec);
    assert!(field_from_kdl_code(&required, "\"tags\"")
        .ends_with("::core::option::Option::None => { ::core::option::Option::Some(::std::vec::Vec::new()) } }"));
}

#[test]
fn child_from_kdl_code() {
    let f = model_field("server", "server", "Server", true, FieldKind::Child);
    let code = field_from_kdl_code(&f, "\"server\"");
    assert!(code.contains("match <Server>::__from_kdl_in(__children, __source)"));
    assert!(code.contains("::core::result::Result::Ok(__v) => { ::core::option::Option::Some(::core::option::Option::Some(__v)) }"));
    assert!(code.ends_with("::core::option::Option::None => { ::core::option::Option::Some(::core::option::Option::None) } }"));
    let v = model_field("routes", "route", "Route", false, FieldKind::ChildVec);
    let code = field_from_kdl_code(&v, "\"route\"");
    assert!(code.starts_with("{ let mut __out = ::std::vec::Vec::new(); let mut __ok = true; let mut __found = false; for __node in __doc.nodes() { if __node.name().value() == \"route\" {"));
    assert!(code.ends_with("let _ = __found; if __ok { ::core::option::Option::Some(__out) } else { ::core::option::Option::None } }"));
}

#[test]
fn plain_names_are_quoted_in_both_expansions() {
    let c = Container {
        ident: "C".to_string(),
        generics: no_generics(),
        fields: vec![model_field("x", "my-node", "u8", false, FieldKind::Scalar)],
    };
    let to = expand_to_kdl(&c);
    let from = expand_from_kdl(&c);
    assert!(to.contains("::kdl::KdlNode::new(\"my-node\")"));
    assert!(from.contains("match __doc.get(\"my-node\")"));
    assert!(!to.contains("\"x\""));
    assert_eq!(field_to_tokens(&c.fields[0]), field_to_kdl_code(&c.fields[0], "\"my-node\""));
    assert_eq!(field_from_expr(&c.fields[0]), field_from_kdl_code(&c.fields[0], "\"my-node\""));
}

#[test]
fn single_field_initialiser_has_no_trailing_comma() {
    let c = Container {
        ident: "C".to_string(),
        generics: no_generics(),
        fields: vec![model_field("x", "x", "u8", false, FieldKind::Scalar)],
    };
    let from = from_kdl_code(&c, &vec!["\"x\"".to_string()]);
    assert!(from.ends_with("::core::result::Result::Ok(Self { x: __kdl_field_x.unwrap() }) } } };"));
    parses_as_items(&from);
}

fn literal_in(code: &str, before: &str, after: &str) -> String {
    let start = code.find(before).expect("literal start") + before.len();
    let end = start + code[start..].find(after).expect("literal end");
    code[start..end].to_string()
}

#[test]
fn any_name_is_written_as_a_literal_of_that_value() {
    for name in ["größe", "über\n\"tab\"\t\\", "\u{0}7", "emoji 😀 '", ""] {
        let f = model_field("x", name, "u8", false, FieldKind::Scalar);
        let to = field_to_tokens(&f);
        let lit = literal_in(&to, "::kdl::KdlNode::new(", "); __node");
        let parsed: syn::LitStr = syn::parse_str(&lit).unwrap();
        assert_eq!(parsed.value(), name);
        let from = field_from_expr(&f);
        let lit2 = literal_in(&from, "match __doc.get(", ") {");
        let parsed2: syn::LitStr = syn::parse_str(&lit2).unwrap();
        assert_eq!(parsed2.value(), name);
    }
}

#[test]
fn unraw_strips_the_raw_prefix() {
    assert_eq!(unraw_ident("r#type"), "type");
    assert_eq!(unraw_ident("rust"), "rust");
    assert_eq!(unraw_ident("r"), "r");
    assert_eq!(unraw_ident(""), "");
}

#[test]
fn to_kdl_code_puts_fields_in_order() {
    let c = Container {
        ident: "Config".to_string(),
        generics: GenericsText {
            impl_generics: "< T >".to_string(),
            ty_generics: "< T >".to_string(),
            where_clause: "where T : Clone".to_string(),
        },
        fields: vec![
            model_field("a", "a", "u8", false, FieldKind::Scalar),
            model_field("b", "bee", "u8", true, FieldKind::Scalar),
        ],
    };
    let lits = vec!["\"a\"".to_string(), "\"bee\"".to_string()];
    let code = to_kdl_code(&c, &lits);
    let expected = format!(
        "{}< T > Config < T > where T : Clone{}{}{}{}",
        TO_KDL_HEAD,
        TO_KDL_OPEN,
        field_to_kdl_code(&c.fields[0], "\"a\""),
        field_to_kdl_code(&c.fields[1], "\"bee\""),
        TO_KDL_TAIL
    );
    assert_eq!(code, expected);
    parses_as_items(&code);
    let from = from_kdl_code(&c, &lits);
    assert!(from.starts_with(FROM_KDL_HEAD));
    assert!(from.contains("let __kdl_field_a = match __doc.get(\"a\")"));
    assert!(from.contains("let __kdl_field_b = match __doc.get(\"bee\")"));
    assert!(from.contains("::core::result::Result::Ok(Self { a: __kdl_field_a.unwrap(), b: __kdl_field_b.unwrap() })"));
    parses_as_items(&from);
}

#[test]
fn derives_produce_valid_rust() {
    let to = derive_to_kdl(sample_input()).unwrap();
    parses_as_items(&to);
    assert!(to.contains("&self.r#type"));
    assert!(to.contains("::kdl::KdlNode::new(\"kind\")"));
    let from = derive_from_kdl(sample_input()).unwrap();
    parses_as_items(&from);
    assert!(from.contains("let __kdl_field_type = "));
    assert!(from.contains("r#type: __kdl_field_type.unwrap(), "));
    assert!(from.contains("match __doc.get(\"kind\")"));
}

#[test]
fn expansions_of_an_empty_struct() {
    let c = Container { ident: "Empty".to_string(), generics: no_generics(), fields: vec![] };
    let to = expand_to_kdl(&c);
    assert_eq!(to, format!("{} Empty  {}{}", TO_KDL_HEAD, TO_KDL_OPEN, TO_KDL_TAIL));
    parses_as_items(&to);
    let from = expand_from_kdl(&c);
    assert!(from.ends_with("::core::result::Result::Ok(Self {  }) } } };"));
    parses_as_items(&from);
}

#[test]
fn derives_refuse_the_same_inputs() {
    let enum_input = DeriveInput { ident: "E".to_string(), generics: no_generics(), data: Data::NotStruct };
    assert_eq!(derive_to_kdl(enum_input).err(), Some(DeriveError::NotStruct));
    let enum_input = DeriveInput { ident: "E".to_string(), generics: no_generics(), data: Data::NotStruct };
    assert_eq!(derive_from_kdl(enum_input).err(), Some(DeriveError::NotStruct));
    let tuple = DeriveInput { ident: "T".to_string(), generics: no_generics(), data: Data::OtherStruct };
    assert_eq!(derive_from_kdl(tuple).err(), Some(DeriveError::NotNamedStruct));
    let bad = || DeriveInput {
        ident: "B".to_string(),
        generics: no_generics(),
        data: Data::NamedStruct(vec![FieldInput {
            ident: "x".to_string(),
            attrs: vec![kdl(vec![Meta::Unknown])],
            ty: plain("u8"),
        }]),
    };
    assert_eq!(derive_to_kdl(bad()).err(), derive_from_kdl(bad()).err());
    assert!(derive_to_kdl(bad()).is_err());
}
