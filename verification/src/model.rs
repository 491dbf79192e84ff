//! The data model of a struct that derives `ToKdl` / `FromKdl`.
use vstd::prelude::*;

verus! {

/// How a field is written to and read from a KDL document.
#[derive(Clone, Copy, PartialEq, Eq, Structural, Debug)]
pub enum FieldKind {
    /// One node whose first argument holds the value.
    Scalar,
    /// One node whose arguments hold the items of a `Vec`.
    ScalarVec,
    /// One node whose children block holds a nested document.
    Child,
    /// One node per item of a `Vec`, each with a children block.
    ChildVec,
}

/// The kind a field gets from its `child` attribute and from whether its
/// (possibly `Option`-unwrapped) type is a `Vec`.
pub open spec fn kind_for(is_child: bool, is_vec: bool) -> FieldKind {
    if is_child {
        if is_vec { FieldKind::ChildVec } else { FieldKind::Child }
    } else {
        if is_vec { FieldKind::ScalarVec } else { FieldKind::Scalar }
    }
}

/// The shape of a field's type, as far as the derive looks into it: the
/// type's source text and, for a path type, its last segment.
pub struct TypeShape {
    /// The type written out as Rust source.
    pub text: String,
    /// The last segment of the path, when the type is a path type.
    pub path_last: Option<PathSegment>,
}

/// One segment of a type path, such as `Vec<u8>` in `std::vec::Vec<u8>`.
pub struct PathSegment {
    pub ident: String,
    pub args: PathArguments,
}

/// The arguments of a path segment.
pub enum PathArguments {
    /// No arguments: `Foo`.
    NoArguments,
    /// Angle-bracketed arguments: `Foo<A, 'a, N>`.
    AngleBracketed(Vec<GenericArgument>),
    /// Parenthesized arguments: `Fn(A) -> B`.
    Parenthesized,
}

/// One angle-bracketed argument.
pub enum GenericArgument {
    /// A type argument.
    Type(TypeShape),
    /// A lifetime, a constant, a binding or a constraint.
    Other,
}

/// The first type argument in a list of generic arguments.
pub open spec fn first_type_argument(args: Seq<GenericArgument>) -> Option<TypeShape>
    decreases args.len(),
{
    if args.len() == 0 {
        None
    } else {
        match args[0] {
            GenericArgument::Type(t) => Some(t),
            GenericArgument::Other => first_type_argument(args.drop_first()),
        }
    }
}

/// `T` when `ty` is a path type whose last segment is `wrapper<.., T, ..>`,
/// `T` being its first type argument; `None` otherwise.
pub open spec fn inner_type_of(ty: TypeShape, wrapper: Seq<char>) -> Option<TypeShape> {
    match ty.path_last {
        Some(seg) => if seg.ident@ == wrapper {
            match seg.args {
                PathArguments::AngleBracketed(args) => first_type_argument(args@),
                _ => None,
            }
        } else {
            None
        },
        None => None,
    }
}

/// The position of the first type argument in `args`.
fn first_type_position(args: &Vec<GenericArgument>) -> (r: Option<usize>)
    ensures
        match first_type_argument(args@) {
            Some(t) => r matches Some(i) && i < args@.len() && args@[i as int] == GenericArgument::Type(t),
            None => r is None,
        },
{
    let mut i: usize = 0;
    assert(args@.skip(0) =~= args@);
    while i < args.len()
        invariant
            i <= args@.len(),
            first_type_argument(args@) == first_type_argument(args@.skip(i as int)),
        decreases args@.len() - i,
    {
        assert(args@.skip(i as int).drop_first() =~= args@.skip(i + 1));
        match &args[i] {
            GenericArgument::Type(_) => {
                return Some(i);
            },
            GenericArgument::Other => {},
        }
        i = i + 1;
    }
    assert(args@.skip(i as int).len() == 0);
    None
}

/// Splits `wrapper<T>` into `T`: `Ok(T)` when `ty` is a path type whose last
/// segment is named `wrapper` and has a type argument (the first one is
/// taken), and `Err(ty)`, the type handed back unchanged, otherwise.
pub fn inner_of(ty: TypeShape, wrapper: &str) -> (r: Result<TypeShape, TypeShape>)
    ensures
        match inner_type_of(ty, wrapper@) {
            Some(t) => r == Ok::<TypeShape, TypeShape>(t),
            None => r == Err::<TypeShape, TypeShape>(ty),
        },
{
    let TypeShape { text, path_last } = ty;
    match path_last {
        None => Err(TypeShape { text, path_last: None }),
        Some(seg) => {
            let PathSegment { ident, args } = seg;
            let expected = String::from_str(wrapper);
            if ident == expected {
                match args {
                    PathArguments::AngleBracketed(mut list) => {
                        match first_type_position(&list) {
                            Some(i) => {
                                let arg = list.remove(i);
                                match arg {
                                    GenericArgument::Type(t) => Ok(t),
                                    GenericArgument::Other => {
                                        proof {
                                            assert(false);
                                        }
                                        Err(TypeShape { text, path_last: None })
                                    },
                                }
                            },
                            None => Err(
                                TypeShape {
                                    text,
                                    path_last: Some(
                                        PathSegment {
                                            ident,
                                            args: PathArguments::AngleBracketed(list),
                                        },
                                    ),
                                },
                            ),
                        }
                    },
                    other => Err(
                        TypeShape { text, path_last: Some(PathSegment { ident, args: other }) },
                    ),
                }
            } else {
                Err(TypeShape { text, path_last: Some(PathSegment { ident, args }) })
            }
        },
    }
}

/// What a field's `default` attribute says.  The attribute is accepted and
/// recorded, but neither expansion reads it: a missing required node is an
/// error whatever it says.
pub enum DefaultSource {
    /// No `default` attribute.
    Unset,
    /// `#[kdl(default)]`: `Default::default()`.
    Trait,
    /// `#[kdl(default = "path")]`: the expression, written out as Rust source.
    Path(String),
}

/// One item inside the parentheses of an attribute, as the attribute parser
/// delivered it.
pub enum Meta {
    /// `child`
    Child,
    /// `name = "..."`, with the string's value.
    Name(String),
    /// `default`
    DefaultTrait,
    /// `default = "..."`, with the string's value parsed as an expression
    /// and written out again.
    DefaultPath(String),
    /// An item whose path is none of `child`, `name` and `default`.
    Unknown,
    /// Input the attribute parser could not read (a missing `=`, a value
    /// that is not a string literal or not an expression, a stray token).
    Malformed,
}

/// What the attribute parser is asked to read after an item's path.
#[derive(Clone, Copy, PartialEq, Eq, Structural, Debug)]
pub enum MetaRequest {
    /// Nothing: the item is `child`.
    Child,
    /// `= "..."`: the item is `name`.
    Name,
    /// `= "..."` holding an expression: the item is `default = ..`.
    DefaultPath,
    /// Nothing: the item is a bare `default`.
    DefaultTrait,
    /// Nothing: the item is refused.
    Unknown,
}

/// One outer attribute of a field: its path, when that path is a single
/// identifier, and, for a `kdl` attribute, the items read from it.
pub struct Attribute {
    pub path_ident: Option<String>,
    pub metas: Vec<Meta>,
}

/// Whether an attribute with this path belongs to the derive.
pub open spec fn is_kdl_path(path_ident: Option<String>) -> bool {
    path_ident matches Some(p) && p@ == "kdl"@
}

/// Whether an attribute with this path belongs to the derive: its path is
/// the single identifier `kdl`.
pub fn is_kdl_attribute(path_ident: &Option<String>) -> (r: bool)
    ensures
        r == is_kdl_path(*path_ident),
{
    match path_ident {
        Some(p) => *p == String::from_str("kdl"),
        None => false,
    }
}

/// The request for an item of a `kdl` attribute whose path is `path_ident`
/// (when that path is a single identifier) and which is followed by `=`
/// when `eq_follows`.
pub open spec fn request_for(path_ident: Option<String>, eq_follows: bool) -> MetaRequest {
    match path_ident {
        Some(p) => if p@ == "child"@ {
            MetaRequest::Child
        } else if p@ == "name"@ {
            MetaRequest::Name
        } else if p@ == "default"@ {
            if eq_follows { MetaRequest::DefaultPath } else { MetaRequest::DefaultTrait }
        } else {
            MetaRequest::Unknown
        },
        None => MetaRequest::Unknown,
    }
}

/// Decides what to read for one item of a `kdl` attribute.
pub fn meta_request(path_ident: &Option<String>, eq_follows: bool) -> (r: MetaRequest)
    ensures
        r == request_for(*path_ident, eq_follows),
{
    match path_ident {
        Some(p) => {
            if *p == String::from_str("child") {
                MetaRequest::Child
            } else if *p == String::from_str("name") {
                MetaRequest::Name
            } else if *p == String::from_str("default") {
                if eq_follows {
                    MetaRequest::DefaultPath
                } else {
                    MetaRequest::DefaultTrait
                }
            } else {
                MetaRequest::Unknown
            }
        },
        None => MetaRequest::Unknown,
    }
}

/// Closes the items read from a `kdl` attribute whose reading failed: the
/// failure is recorded as a `Malformed` item, unless the last item read is
/// the `Unknown` item whose refusal ended the reading.
pub fn close_failed_attribute(metas: &mut Vec<Meta>)
    ensures
        if old(metas)@.len() > 0 && old(metas)@.last() is Unknown {
            final(metas)@ == old(metas)@
        } else {
            final(metas)@ == old(metas)@.push(Meta::Malformed)
        },
{
    let n = metas.len();
    let refused = n > 0 && match &metas[n - 1] {
        Meta::Unknown => true,
        _ => false,
    };
    if !refused {
        metas.push(Meta::Malformed);
    }
}

/// Why a `kdl` attribute was refused.
#[derive(Clone, Copy, PartialEq, Eq, Structural, Debug)]
pub enum AttrCause {
    /// An item whose path is none of `child`, `name` and `default`.
    Unknown,
    /// Input the attribute parser could not read.
    Malformed,
}

/// A refused attribute: its position among the field's attributes, and why.
#[derive(Clone, Copy, PartialEq, Eq, Structural, Debug)]
pub struct AttrError {
    pub attr: usize,
    pub cause: AttrCause,
}

/// What the `kdl` attributes of a field have set so far.
pub struct AttrSettings {
    pub is_child: bool,
    pub name_override: Option<String>,
    pub default: DefaultSource,
}

/// The settings before any attribute is read.
pub open spec fn initial_settings() -> AttrSettings {
    AttrSettings { is_child: false, name_override: None, default: DefaultSource::Unset }
}

/// The settings after one item; a refused item stops with its cause.
pub open spec fn apply_meta(s: AttrSettings, m: Meta) -> Result<AttrSettings, AttrCause> {
    match m {
        Meta::Child => Ok(AttrSettings { is_child: true, ..s }),
        Meta::Name(n) => Ok(AttrSettings { name_override: Some(n), ..s }),
        Meta::DefaultTrait => Ok(AttrSettings { default: DefaultSource::Trait, ..s }),
        Meta::DefaultPath(p) => Ok(AttrSettings { default: DefaultSource::Path(p), ..s }),
        Meta::Unknown => Err(AttrCause::Unknown),
        Meta::Malformed => Err(AttrCause::Malformed),
    }
}

/// The settings after the items of one attribute, in order; the first
/// refused item stops the attribute.
pub open spec fn apply_metas(s: AttrSettings, metas: Seq<Meta>) -> Result<AttrSettings, AttrCause>
    decreases metas.len(),
{
    if metas.len() == 0 {
        Ok(s)
    } else {
        match apply_meta(s, metas[0]) {
            Ok(n) => apply_metas(n, metas.drop_first()),
            Err(c) => Err(c),
        }
    }
}

/// The settings after the attributes from position `from` on, in order;
/// attributes that are not `kdl` attributes are passed over, and the first
/// refused one stops the field with its position.
pub open spec fn apply_attrs(s: AttrSettings, attrs: Seq<Attribute>, from: int) -> Result<
    AttrSettings,
    (int, AttrCause),
>
    decreases attrs.len() - from,
{
    if from >= attrs.len() || from < 0 {
        Ok(s)
    } else if !is_kdl_path(attrs[from].path_ident) {
        apply_attrs(s, attrs, from + 1)
    } else {
        match apply_metas(s, attrs[from].metas@) {
            Ok(n) => apply_attrs(n, attrs, from + 1),
            Err(c) => Err((from, c)),
        }
    }
}

/// Reads the items of one `kdl` attribute into `s`.
fn read_metas(s: &mut AttrSettings, metas: &Vec<Meta>) -> (r: Result<(), AttrCause>)
    ensures
        match apply_metas(*old(s), metas@) {
            Ok(n) => r is Ok && *final(s) == n,
            Err(c) => r == Err::<(), AttrCause>(c),
        },
{
    let ghost start = *s;
    let mut i: usize = 0;
    assert(metas@.skip(0) =~= metas@);
    while i < metas.len()
        invariant
            i <= metas@.len(),
            start == *old(s),
            apply_metas(start, metas@) == apply_metas(*s, metas@.skip(i as int)),
        decreases metas@.len() - i,
    {
        assert(metas@.skip(i as int).drop_first() =~= metas@.skip(i + 1));
        match &metas[i] {
            Meta::Child => {
                s.is_child = true;
            },
            Meta::Name(n) => {
                s.name_override = Some(n.clone());
            },
            Meta::DefaultTrait => {
                s.default = DefaultSource::Trait;
            },
            Meta::DefaultPath(p) => {
                s.default = DefaultSource::Path(p.clone());
            },
            Meta::Unknown => {
                return Err(AttrCause::Unknown);
            },
            Meta::Malformed => {
                return Err(AttrCause::Malformed);
            },
        }
        i = i + 1;
    }
    assert(metas@.skip(i as int).len() == 0);
    Ok(())
}

/// Reads the `kdl` attributes among `attrs`, in order, stopping at the first
/// refused one.
pub fn read_attributes(attrs: &Vec<Attribute>) -> (r: Result<AttrSettings, AttrError>)
    ensures
        match apply_attrs(initial_settings(), attrs@, 0) {
            Ok(s) => r matches Ok(t) && t == s,
            Err((i, c)) => r == Err::<AttrSettings, AttrError>(AttrError { attr: i as usize, cause: c }),
        },
{
    let mut s = AttrSettings { is_child: false, name_override: None, default: DefaultSource::Unset };
    let mut i: usize = 0;
    while i < attrs.len()
        invariant
            i <= attrs@.len(),
            apply_attrs(initial_settings(), attrs@, 0) == apply_attrs(s, attrs@, i as int),
        decreases attrs@.len() - i,
    {
        let attr = &attrs[i];
        if is_kdl_attribute(&attr.path_ident) {
            match read_metas(&mut s, &attr.metas) {
                Ok(()) => {},
                Err(cause) => {
                    return Err(AttrError { attr: i, cause });
                },
            }
        }
        i = i + 1;
    }
    Ok(s)
}

/// A named field of the struct, as written in the source.
pub struct FieldInput {
    pub ident: String,
    pub attrs: Vec<Attribute>,
    pub ty: TypeShape,
}

/// A field as the expansion sees it.
pub struct Field {
    /// The field's identifier.
    pub ident: String,
    /// The KDL node name: `name = ".."` or else the identifier.
    pub name: String,
    /// The field's type with `Option` and then `Vec` peeled off.
    pub inner_ty: TypeShape,
    /// Whether the field's type is an `Option`.
    pub optional: bool,
    pub kind: FieldKind,
    pub default: DefaultSource,
}

/// `(true, T)` when `ty` is `wrapper<T>`, `(false, ty)` otherwise.
pub open spec fn peel(ty: TypeShape, wrapper: Seq<char>) -> (bool, TypeShape) {
    match inner_type_of(ty, wrapper) {
        Some(t) => (true, t),
        None => (false, ty),
    }
}

/// The field described by `input` under the attribute settings `s`.
pub open spec fn field_with(input: FieldInput, s: AttrSettings) -> Field {
    let (optional, after_option) = peel(input.ty, "Option"@);
    let (is_vec, inner) = peel(after_option, "Vec"@);
    Field {
        ident: input.ident,
        name: match s.name_override {
            Some(n) => n,
            None => input.ident,
        },
        inner_ty: inner,
        optional,
        kind: kind_for(s.is_child, is_vec),
        default: s.default,
    }
}

/// What parsing `input` gives: the field, or the first refused attribute.
pub open spec fn field_result(input: FieldInput) -> Result<Field, AttrError> {
    match apply_attrs(initial_settings(), input.attrs@, 0) {
        Ok(s) => Ok(field_with(input, s)),
        Err((i, c)) => Err(AttrError { attr: i as usize, cause: c }),
    }
}

impl Field {
    /// Reads a field's `kdl` attributes and the shape of its type: an outer
    /// `Option<T>` makes the field optional, a `Vec<T>` (inside the `Option`,
    /// if any) makes it a list, and `child` makes it a nested document.
    pub fn parse(input: FieldInput) -> (r: Result<Field, AttrError>)
        ensures
            r == field_result(input),
    {
        let settings = match read_attributes(&input.attrs) {
            Ok(s) => s,
            Err(e) => {
                return Err(e);
            },
        };
        let FieldInput { ident, attrs: _, ty } = input;
        let (optional, after_option) = match inner_of(ty, "Option") {
            Ok(inner) => (true, inner),
            Err(same) => (false, same),
        };
        let (is_vec, inner_ty) = match inner_of(after_option, "Vec") {
            Ok(inner) => (true, inner),
            Err(same) => (false, same),
        };
        let kind = if settings.is_child {
            if is_vec {
                FieldKind::ChildVec
            } else {
                FieldKind::Child
            }
        } else {
            if is_vec {
                FieldKind::ScalarVec
            } else {
                FieldKind::Scalar
            }
        };
        let AttrSettings { is_child: _, name_override, default } = settings;
        let name = match name_override {
            Some(n) => n,
            None => ident.clone(),
        };
        Ok(Field { ident, name, inner_ty, optional, kind, default })
    }
}

/// The generics of the struct, split for an `impl` block and written out as
/// Rust source: `impl<..>`'s parameters, the type's arguments, and the
/// `where` clause (each possibly empty).
pub struct GenericsText {
    pub impl_generics: String,
    pub ty_generics: String,
    pub where_clause: String,
}

/// The body of the item the derive is applied to.
pub enum Data {
    /// A struct with named fields.
    NamedStruct(Vec<FieldInput>),
    /// A tuple struct or a unit struct.
    OtherStruct,
    /// An enum or a union.
    NotStruct,
}

/// The item the derive is applied to.
pub struct DeriveInput {
    pub ident: String,
    pub generics: GenericsText,
    pub data: Data,
}

/// Why the derive refused its input.
#[derive(Clone, Copy, PartialEq, Eq, Structural, Debug)]
pub enum DeriveError {
    /// The item is an enum or a union.
    NotStruct,
    /// The item is a tuple struct or a unit struct.
    NotNamedStruct,
    /// A `kdl` attribute of the field at position `field` was refused.
    Attribute { field: usize, error: AttrError },
}

/// The message of the error for an unknown item in a `kdl` attribute.
pub const UNKNOWN_ATTRIBUTE_MESSAGE: &'static str = "unknown `kdl` attribute, expected `child`, `name = \"..\"`, `default` or `default = \"..\"`";

/// The message of the error for an enum or a union.
pub const NOT_STRUCT_MESSAGE: &'static str = "kdl-derive can only be derived for structs";

/// The message of the error for a tuple struct or a unit struct.
pub const NOT_NAMED_STRUCT_MESSAGE: &'static str = "kdl-derive only supports structs with named fields";

/// The message the derive reports for an error, where it writes one itself.
pub open spec fn message_of(e: DeriveError) -> Option<Seq<char>> {
    match e {
        DeriveError::NotStruct => Some(NOT_STRUCT_MESSAGE@),
        DeriveError::NotNamedStruct => Some(NOT_NAMED_STRUCT_MESSAGE@),
        DeriveError::Attribute { error, .. } => match error.cause {
            AttrCause::Unknown => Some(UNKNOWN_ATTRIBUTE_MESSAGE@),
            AttrCause::Malformed => None,
        },
    }
}

impl DeriveError {
    /// The message of this error; `None` for an attribute the parser could
    /// not read, whose message is the parser's own.
    pub fn message(&self) -> (r: Option<String>)
        ensures
            match message_of(*self) {
                Some(m) => r matches Some(s) && s@ == m,
                None => r is None,
            },
    {
        match self {
            DeriveError::NotStruct => Some(String::from_str(NOT_STRUCT_MESSAGE)),
            DeriveError::NotNamedStruct => Some(String::from_str(NOT_NAMED_STRUCT_MESSAGE)),
            DeriveError::Attribute { error, .. } => match error.cause {
                AttrCause::Unknown => Some(String::from_str(UNKNOWN_ATTRIBUTE_MESSAGE)),
                AttrCause::Malformed => None,
            },
        }
    }
}

/// The struct as the expansion sees it.
pub struct Container {
    pub ident: String,
    pub generics: GenericsText,
    pub fields: Vec<Field>,
}

/// The first field from position `from` on whose attributes are refused,
/// with its error.
pub open spec fn first_field_error(fields: Seq<FieldInput>, from: int) -> Option<(int, AttrError)>
    decreases fields.len() - from,
{
    if from >= fields.len() || from < 0 {
        None
    } else {
        match field_result(fields[from]) {
            Err(e) => Some((from, e)),
            Ok(_) => first_field_error(fields, from + 1),
        }
    }
}

/// What the derive makes of `input` when the result is `Ok`: a container
/// with the same name and generics whose fields are the parsed fields, in
/// order.
pub open spec fn container_of(input: DeriveInput, c: Container) -> bool {
    &&& input.data matches Data::NamedStruct(fields)
    &&& c.ident == input.ident
    &&& c.generics == input.generics
    &&& c.fields@.len() == fields@.len()
    &&& forall|i: int| 0 <= i < fields@.len() ==> field_result(#[trigger] fields@[i]) == Ok::<Field, AttrError>(c.fields@[i])
}

/// The error the derive reports for `input`, if any: enums and unions,
/// then tuple and unit structs, then the first field with a refused
/// attribute.
pub open spec fn input_error(input: DeriveInput) -> Option<DeriveError> {
    match input.data {
        Data::NotStruct => Some(DeriveError::NotStruct),
        Data::OtherStruct => Some(DeriveError::NotNamedStruct),
        Data::NamedStruct(fields) => match first_field_error(fields@, 0) {
            Some((i, e)) => Some(DeriveError::Attribute { field: i as usize, error: e }),
            None => None,
        },
    }
}

impl Container {
    /// Reads the item the derive is applied to: a struct with named fields,
    /// each field parsed in order, the first refused attribute ending the
    /// derive with an error.
    pub fn from_derive_input(input: DeriveInput) -> (r: Result<Container, DeriveError>)
        ensures
            match input_error(input) {
                Some(e) => r == Err::<Container, DeriveError>(e),
                None => r matches Ok(c) && container_of(input, c),
            },
    {
        let ghost orig = input;
        let DeriveInput { ident, generics, data } = input;
        let named = match data {
            Data::NamedStruct(named) => named,
            Data::OtherStruct => {
                return Err(DeriveError::NotNamedStruct);
            },
            Data::NotStruct => {
                return Err(DeriveError::NotStruct);
            },
        };
        let ghost all = named@;
        let n = named.len();
        let mut rest = named;
        let mut fields: Vec<Field> = Vec::new();
        let mut i: usize = 0;
        assert(all.skip(0) =~= all);
        while i < n
            invariant
                n == all.len(),
                i <= n,
                orig == input,
                orig.data matches Data::NamedStruct(v) && v@ == all,
                orig.ident == ident,
                orig.generics == generics,
                rest@ == all.skip(i as int),
                fields@.len() == i,
                forall|j: int| 0 <= j < i ==> field_result(#[trigger] all[j]) == Ok::<Field, AttrError>(fields@[j]),
                first_field_error(all, 0) == first_field_error(all, i as int),
            decreases n - i,
        {
            assert(rest@[0] == all[i as int]);
            let field_input = rest.remove(0);
            assert(rest@ =~= all.skip(i + 1));
            match Field::parse(field_input) {
                Ok(field) => {
                    fields.push(field);
                },
                Err(error) => {
                    return Err(DeriveError::Attribute { field: i, error });
                },
            }
            i = i + 1;
        }
        Ok(Container { ident, generics, fields })
    }
}

} // verus!
