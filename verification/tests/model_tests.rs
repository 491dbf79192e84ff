use kdl_derive::model::{
    close_failed_attribute, inner_of, is_kdl_attribute, meta_request, AttrCause, AttrError, Attribute, Container, Data,
    DefaultSource, DeriveError, DeriveInput, Field, FieldInput, FieldKind, GenericArgument,
    GenericsText, Meta, MetaRequest, PathArguments, PathSegment, TypeShape,
    NOT_NAMED_STRUCT_MESSAGE, NOT_STRUCT_MESSAGE, UNKNOWN_ATTRIBUTE_MESSAGE,
};

fn plain(name: &str) -> TypeShape {
    TypeShape {
        text: name.to_string(),
        path_last: Some(PathSegment { ident: name.to_string(), args: PathArguments::NoArguments }),
    }
}

fn wrapped(wrapper: &str, inner: TypeShape) -> TypeShape {
    TypeShape {
        text: format!("{} < {} >", wrapper, inner.text),
        path_last: Some(PathSegment {
            ident: wrapper.to_string(),
            args: PathArguments::AngleBracketed(vec![GenericArgument::Type(inner)]),
        }),
    }
}

fn kdl(metas: Vec<Meta>) -> Attribute {
    Attribute { path_ident: Some("kdl".to_string()), metas }
}

fn other_attr(name: &str) -> Attribute {
    Attribute { path_ident: Some(name.to_string()), metas: vec![Meta::Unknown] }
}

fn field(ident: &str, attrs: Vec<Attribute>, ty: TypeShape) -> FieldInput {
    FieldInput { ident: ident.to_string(), attrs, ty }
}

fn parse(input: FieldInput) -> Field {
    match Field::parse(input) {
        Ok(f) => f,
        Err(e) => panic!("unexpected error {:?}", e),
    }
}

fn generics() -> GenericsText {
    GenericsText {
        impl_generics: String::new(),
        ty_generics: String::new(),
        where_clause: String::new(),
    }
}

fn text_of(r: Result<TypeShape, TypeShape>) -> Result<String, String> {
    match r {
        Ok(t) => Ok(t.text),
        Err(t) => Err(t.text),
    }
}

#[test]
fn inner_of_takes_the_type_argument() {
    assert_eq!(text_of(inner_of(wrapped("Option", plain("u8")), "Option")), Ok("u8".to_string()));
    assert_eq!(
        text_of(inner_of(wrapped("Vec", plain("String")), "Option")),
        Err("Vec < String >".to_string())
    );
    assert_eq!(text_of(inner_of(plain("Option"), "Option")), Err("Option".to_string()));
}

#[test]
fn inner_of_skips_non_type_arguments() {
    let ty = TypeShape {
        text: "Cow < 'a , str >".to_string(),
        path_last: Some(PathSegment {
            ident: "Cow".to_string(),
            args: PathArguments::AngleBracketed(vec![GenericArgument::Other, GenericArgument::Type(plain("str"))]),
        }),
    };
    assert_eq!(text_of(inner_of(ty, "Cow")), Ok("str".to_string()));
    let only_lifetime = TypeShape {
        text: "Foo < 'a >".to_string(),
        path_last: Some(PathSegment {
            ident: "Foo".to_string(),
            args: PathArguments::AngleBracketed(vec![GenericArgument::Other]),
        }),
    };
    assert_eq!(text_of(inner_of(only_lifetime, "Foo")), Err("Foo < 'a >".to_string()));
}

#[test]
fn inner_of_refuses_non_path_and_parenthesized_types() {
    let reference = TypeShape { text: "& Option < u8 >".to_string(), path_last: None };
    assert_eq!(text_of(inner_of(reference, "Option")), Err("& Option < u8 >".to_string()));
    let func = TypeShape {
        text: "Option (u8)".to_string(),
        path_last: Some(PathSegment { ident: "Option".to_string(), args: PathArguments::Parenthesized }),
    };
    assert_eq!(text_of(inner_of(func, "Option")), Err("Option (u8)".to_string()));
}

#[test]
fn kdl_attribute_is_recognised_by_its_path() {
    assert!(is_kdl_attribute(&Some("kdl".to_string())));
    assert!(!is_kdl_attribute(&Some("serde".to_string())));
    assert!(!is_kdl_attribute(&Some("r#kdl".to_string())));
    assert!(!is_kdl_attribute(&None));
}

#[test]
fn meta_requests() {
    assert_eq!(meta_request(&Some("child".to_string()), false), MetaRequest::Child);
    assert_eq!(meta_request(&Some("child".to_string()), true), MetaRequest::Child);
    assert_eq!(meta_request(&Some("name".to_string()), true), MetaRequest::Name);
    assert_eq!(meta_request(&Some("name".to_string()), false), MetaRequest::Name);
    assert_eq!(meta_request(&Some("default".to_string()), true), MetaRequest::DefaultPath);
    assert_eq!(meta_request(&Some("default".to_string()), false), MetaRequest::DefaultTrait);
    assert_eq!(meta_request(&Some("rename".to_string()), true), MetaRequest::Unknown);
    assert_eq!(meta_request(&None, false), MetaRequest::Unknown);
}

#[test]
fn plain_scalar_field() {
    let f = parse(field("port", vec![], plain("u16")));
    assert_eq!(f.ident, "port");
    assert_eq!(f.name, "port");
    assert_eq!(f.inner_ty.text, "u16");
    assert!(!f.optional);
    assert_eq!(f.kind, FieldKind::Scalar);
    assert!(matches!(f.default, DefaultSource::Unset));
}

#[test]
fn optional_vec_field() {
    let f = parse(field("tags", vec![], wrapped("Option", wrapped("Vec", plain("String")))));
    assert!(f.optional);
    assert_eq!(f.kind, FieldKind::ScalarVec);
    assert_eq!(f.inner_ty.text, "String");
}

#[test]
fn vec_of_option_is_a_list_of_options() {
    let f = parse(field("xs", vec![], wrapped("Vec", wrapped("Option", plain("u8")))));
    assert!(!f.optional);
    assert_eq!(f.kind, FieldKind::ScalarVec);
    assert_eq!(f.inner_ty.text, "Option < u8 >");
}

#[test]
fn child_fields() {
    let f = parse(field("server", vec![kdl(vec![Meta::Child])], plain("Server")));
    assert_eq!(f.kind, FieldKind::Child);
    let f = parse(field("servers", vec![kdl(vec![Meta::Child])], wrapped("Vec", plain("Server"))));
    assert_eq!(f.kind, FieldKind::ChildVec);
    assert_eq!(f.inner_ty.text, "Server");
    let f = parse(field("s", vec![kdl(vec![Meta::Child])], wrapped("Option", plain("Server"))));
    assert_eq!(f.kind, FieldKind::Child);
    assert!(f.optional);
}

#[test]
fn last_name_wins() {
    let f = parse(field(
        "a",
        vec![kdl(vec![Meta::Name("first".to_string())]), kdl(vec![Meta::Name("second".to_string()), Meta::Child])],
        plain("T"),
    ));
    assert_eq!(f.name, "second");
    assert_eq!(f.ident, "a");
    assert_eq!(f.kind, FieldKind::Child);
}

#[test]
fn defaults() {
    let f = parse(field("a", vec![kdl(vec![Meta::DefaultTrait])], plain("u8")));
    assert!(matches!(f.default, DefaultSource::Trait));
    let f = parse(field(
        "a",
        vec![kdl(vec![Meta::DefaultTrait, Meta::DefaultPath("crate :: seven".to_string())])],
        plain("u8"),
    ));
    match f.default {
        DefaultSource::Path(p) => assert_eq!(p, "crate :: seven"),
        _ => panic!("expected a path default"),
    }
}

#[test]
fn other_attributes_are_passed_over() {
    let f = parse(field("a", vec![other_attr("serde"), other_attr("doc")], plain("u8")));
    assert_eq!(f.kind, FieldKind::Scalar);
}

#[test]
fn unknown_item_is_refused_with_its_attribute() {
    let r = Field::parse(field(
        "a",
        vec![other_attr("doc"), kdl(vec![Meta::Child]), kdl(vec![Meta::Name("x".to_string()), Meta::Unknown])],
        plain("u8"),
    ));
    assert_eq!(r.err(), Some(AttrError { attr: 2, cause: AttrCause::Unknown }));
}

#[test]
fn malformed_attribute_is_refused() {
    let r = Field::parse(field("a", vec![kdl(vec![Meta::Malformed]), kdl(vec![Meta::Unknown])], plain("u8")));
    assert_eq!(r.err(), Some(AttrError { attr: 0, cause: AttrCause::Malformed }));
}

fn input(data: Data) -> DeriveInput {
    DeriveInput { ident: "Config".to_string(), generics: generics(), data }
}

fn container(r: Result<Container, DeriveError>) -> Container {
    match r {
        Ok(c) => c,
        Err(e) => panic!("unexpected error {:?}", e),
    }
}

#[test]
fn enums_and_tuple_structs_are_refused() {
    assert_eq!(Container::from_derive_input(input(Data::NotStruct)).err(), Some(DeriveError::NotStruct));
    assert_eq!(
        Container::from_derive_input(input(Data::OtherStruct)).err(),
        Some(DeriveError::NotNamedStruct)
    );
}

#[test]
fn named_struct_fields_in_order() {
    let c = container(Container::from_derive_input(input(Data::NamedStruct(vec![
        field("b", vec![], plain("u8")),
        field("a", vec![kdl(vec![Meta::Child])], wrapped("Vec", plain("Item"))),
    ]))));
    assert_eq!(c.ident, "Config");
    assert_eq!(c.fields.len(), 2);
    assert_eq!(c.fields[0].ident, "b");
    assert_eq!(c.fields[1].ident, "a");
    assert_eq!(c.fields[1].kind, FieldKind::ChildVec);
}

#[test]
fn empty_named_struct_is_accepted() {
    let c = container(Container::from_derive_input(input(Data::NamedStruct(vec![]))));
    assert_eq!(c.fields.len(), 0);
}

#[test]
fn first_refused_field_is_reported() {
    let r = Container::from_derive_input(input(Data::NamedStruct(vec![
        field("a", vec![], plain("u8")),
        field("b", vec![other_attr("doc"), kdl(vec![Meta::Unknown])], plain("u8")),
        field("c", vec![kdl(vec![Meta::Malformed])], plain("u8")),
    ])));
    assert_eq!(
        r.err(),
        Some(DeriveError::Attribute { field: 1, error: AttrError { attr: 1, cause: AttrCause::Unknown } })
    );
}

#[test]
fn error_messages() {
    assert_eq!(DeriveError::NotStruct.message(), Some(NOT_STRUCT_MESSAGE.to_string()));
    assert_eq!(DeriveError::NotNamedStruct.message(), Some(NOT_NAMED_STRUCT_MESSAGE.to_string()));
    assert_eq!(NOT_STRUCT_MESSAGE, "kdl-derive can only be derived for structs");
    assert_eq!(NOT_NAMED_STRUCT_MESSAGE, "kdl-derive only supports structs with named fields");
    let unknown = DeriveError::Attribute { field: 0, error: AttrError { attr: 0, cause: AttrCause::Unknown } };
    assert_eq!(unknown.message(), Some(UNKNOWN_ATTRIBUTE_MESSAGE.to_string()));
    assert_eq!(
        UNKNOWN_ATTRIBUTE_MESSAGE,
        "unknown `kdl` attribute, expected `child`, `name = \"..\"`, `default` or `default = \"..\"`"
    );
    let malformed = DeriveError::Attribute { field: 3, error: AttrError { attr: 0, cause: AttrCause::Malformed } };
    assert_eq!(malformed.message(), None);
}

#[test]
fn well_formed_struct_is_accepted() {
    let r = Container::from_derive_input(input(Data::NamedStruct(vec![
        field("a", vec![kdl(vec![Meta::Child, Meta::Name("x".to_string())])], plain("A")),
        field("b", vec![kdl(vec![Meta::DefaultTrait]), other_attr("doc")], plain("u8")),
        field("c", vec![kdl(vec![Meta::DefaultPath("f".to_string())])], plain("u8")),
    ])));
    assert!(r.is_ok());
}

#[test]
fn failed_attribute_is_closed() {
    let mut metas = vec![Meta::Child];
    close_failed_attribute(&mut metas);
    assert_eq!(metas.len(), 2);
    assert!(matches!(metas[1], Meta::Malformed));
    let mut metas = vec![Meta::Child, Meta::Unknown];
    close_failed_attribute(&mut metas);
    assert_eq!(metas.len(), 2);
    assert!(matches!(metas[1], Meta::Unknown));
    let mut metas = vec![];
    close_failed_attribute(&mut metas);
    assert_eq!(metas.len(), 1);
    assert!(matches!(metas[0], Meta::Malformed));
}

#[test]
fn other_attributes_do_not_change_the_field() {
    let with = Field::parse(field(
        "a",
        vec![other_attr("doc"), kdl(vec![Meta::Child]), other_attr("serde"), kdl(vec![Meta::Name("n".to_string())])],
        wrapped("Vec", plain("A")),
    ))
    .unwrap();
    let without = Field::parse(field(
        "a",
        vec![kdl(vec![Meta::Child]), kdl(vec![Meta::Name("n".to_string())])],
        wrapped("Vec", plain("A")),
    ))
    .unwrap();
    assert_eq!(with.name, without.name);
    assert_eq!(with.kind, without.kind);
    assert_eq!(with.optional, without.optional);
    assert_eq!(with.inner_ty.text, without.inner_ty.text);
    let refused_with = Field::parse(field("a", vec![other_attr("doc"), kdl(vec![Meta::Unknown])], plain("u8")));
    let refused_without = Field::parse(field("a", vec![kdl(vec![Meta::Unknown])], plain("u8")));
    assert_eq!(refused_with.err().map(|e| e.cause), refused_without.err().map(|e| e.cause));
}
