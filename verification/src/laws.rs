//! Properties of the derives that span several functions.
use vstd::prelude::*;

use crate::model::{
    apply_attrs, apply_meta, apply_metas, container_of, field_result, first_field_error,
    initial_settings, inner_type_of, input_error, is_kdl_path, peel, AttrSettings, Attribute, Container, Data,
    DeriveInput, Field, FieldInput, FieldKind, Meta,
};

verus! {

/// An item that the derive accepts: `child`, `name = ".."`, `default` or
/// `default = ".."`.
pub open spec fn accepted_meta(m: Meta) -> bool {
    !(m is Unknown) && !(m is Malformed)
}

/// Every item of every `kdl` attribute among `attrs` is accepted.
pub open spec fn accepted_attrs(attrs: Seq<Attribute>) -> bool {
    forall|i: int, j: int|
        0 <= i < attrs.len() && is_kdl_path(attrs[i].path_ident) && 0 <= j
            < attrs[i].metas@.len() ==> accepted_meta(#[trigger] attrs[i].metas@[j])
}

/// Some `kdl` attribute among `attrs` holds a `child` item.
pub open spec fn has_child_item(attrs: Seq<Attribute>) -> bool {
    exists|i: int, j: int|
        0 <= i < attrs.len() && is_kdl_path(attrs[i].path_ident) && 0 <= j
            < attrs[i].metas@.len() && #[trigger] attrs[i].metas@[j] is Child
}

/// The values of the `name = ".."` items among `metas`, in order.
pub open spec fn names_in_metas(metas: Seq<Meta>) -> Seq<String>
    decreases metas.len(),
{
    if metas.len() == 0 {
        Seq::empty()
    } else {
        let rest = names_in_metas(metas.drop_first());
        match metas[0] {
            Meta::Name(n) => seq![n] + rest,
            _ => rest,
        }
    }
}

/// The values of the `name = ".."` items of the `kdl` attributes among
/// `attrs` from position `from` on, in order.
pub open spec fn names_in_attrs(attrs: Seq<Attribute>, from: int) -> Seq<String>
    decreases attrs.len() - from,
{
    if from >= attrs.len() || from < 0 {
        Seq::empty()
    } else if is_kdl_path(attrs[from].path_ident) {
        names_in_metas(attrs[from].metas@) + names_in_attrs(attrs, from + 1)
    } else {
        names_in_attrs(attrs, from + 1)
    }
}

/// Whether a field of this kind is read from and written to a children
/// block.
pub open spec fn is_nested(kind: FieldKind) -> bool {
    kind == FieldKind::Child || kind == FieldKind::ChildVec
}

/// Whether a field of this kind holds a `Vec`.
pub open spec fn is_list(kind: FieldKind) -> bool {
    kind == FieldKind::ScalarVec || kind == FieldKind::ChildVec
}

proof fn metas_accepted_ok(s: AttrSettings, metas: Seq<Meta>)
    requires
        forall|j: int| 0 <= j < metas.len() ==> accepted_meta(#[trigger] metas[j]),
    ensures
        apply_metas(s, metas) is Ok,
    decreases metas.len(),
{
    if metas.len() > 0 {
        assert(accepted_meta(metas[0]));
        let n = apply_meta(s, metas[0])->Ok_0;
        assert forall|j: int| 0 <= j < metas.drop_first().len() implies accepted_meta(
            #[trigger] metas.drop_first()[j],
        ) by {
            assert(metas.drop_first()[j] == metas[j + 1]);
        }
        metas_accepted_ok(n, metas.drop_first());
    }
}

proof fn attrs_accepted_ok(s: AttrSettings, attrs: Seq<Attribute>, from: int)
    requires
        accepted_attrs(attrs),
    ensures
        apply_attrs(s, attrs, from) is Ok,
    decreases attrs.len() - from,
{
    if from < attrs.len() && from >= 0 {
        if is_kdl_path(attrs[from].path_ident) {
            let metas = attrs[from].metas@;
            assert forall|j: int| 0 <= j < metas.len() implies accepted_meta(#[trigger] metas[j]) by {
                assert(accepted_meta(attrs[from].metas@[j]));
            }
            metas_accepted_ok(s, metas);
            attrs_accepted_ok(apply_metas(s, metas)->Ok_0, attrs, from + 1);
        } else {
            attrs_accepted_ok(s, attrs, from + 1);
        }
    }
}

proof fn fields_accepted_ok(fields: Seq<FieldInput>, from: int)
    requires
        forall|i: int| 0 <= i < fields.len() ==> accepted_attrs(#[trigger] fields[i].attrs@),
    ensures
        first_field_error(fields, from) is None,
    decreases fields.len() - from,
{
    if from < fields.len() && from >= 0 {
        assert(accepted_attrs(fields[from].attrs@));
        attrs_accepted_ok(initial_settings(), fields[from].attrs@, 0);
        fields_accepted_ok(fields, from + 1);
    }
}

/// A struct with named fields whose `kdl` attributes hold only `child`,
/// `name = ".."`, `default` and `default = ".."` items (or no `kdl`
/// attribute at all) is accepted by both derives.
pub proof fn lemma_well_formed_struct_accepted(input: DeriveInput)
    requires
        input.data matches Data::NamedStruct(fields) && forall|i: int|
            0 <= i < fields@.len() ==> accepted_attrs(#[trigger] fields@[i].attrs@),
    ensures
        input_error(input) is None,
{
    if let Data::NamedStruct(fields) = input.data {
        fields_accepted_ok(fields@, 0);
    }
}

proof fn metas_child(s: AttrSettings, metas: Seq<Meta>)
    requires
        apply_metas(s, metas) is Ok,
    ensures
        apply_metas(s, metas)->Ok_0.is_child <==> (s.is_child || exists|j: int|
            0 <= j < metas.len() && #[trigger] metas[j] is Child),
    decreases metas.len(),
{
    if metas.len() > 0 {
        let n = apply_meta(s, metas[0])->Ok_0;
        metas_child(n, metas.drop_first());
        if exists|j: int| 0 <= j < metas.drop_first().len() && #[trigger] metas.drop_first()[j] is Child {
            let j = choose|j: int| 0 <= j < metas.drop_first().len() && #[trigger] metas.drop_first()[j] is Child;
            assert(metas[j + 1] is Child);
        }
        if exists|j: int| 0 <= j < metas.len() && #[trigger] metas[j] is Child {
            let j = choose|j: int| 0 <= j < metas.len() && #[trigger] metas[j] is Child;
            if j > 0 {
                assert(metas.drop_first()[j - 1] is Child);
            }
        }
    }
}

proof fn attrs_child(s: AttrSettings, attrs: Seq<Attribute>, from: int)
    requires
        0 <= from,
        apply_attrs(s, attrs, from) is Ok,
    ensures
        apply_attrs(s, attrs, from)->Ok_0.is_child <==> (s.is_child || exists|i: int, j: int|
            from <= i < attrs.len() && is_kdl_path(attrs[i].path_ident) && 0 <= j
                < attrs[i].metas@.len() && #[trigger] attrs[i].metas@[j] is Child),
    decreases attrs.len() - from,
{
    if from < attrs.len() {
        if is_kdl_path(attrs[from].path_ident) {
            let metas = attrs[from].metas@;
            metas_child(s, metas);
            attrs_child(apply_metas(s, metas)->Ok_0, attrs, from + 1);
        } else {
            attrs_child(s, attrs, from + 1);
        }
    }
}

proof fn metas_names(s: AttrSettings, metas: Seq<Meta>)
    requires
        apply_metas(s, metas) is Ok,
    ensures
        apply_metas(s, metas)->Ok_0.name_override == (if names_in_metas(metas).len() > 0 {
            Some(names_in_metas(metas).last())
        } else {
            s.name_override
        }),
    decreases metas.len(),
{
    if metas.len() > 0 {
        let n = apply_meta(s, metas[0])->Ok_0;
        metas_names(n, metas.drop_first());
    }
}

proof fn attrs_names(s: AttrSettings, attrs: Seq<Attribute>, from: int)
    requires
        apply_attrs(s, attrs, from) is Ok,
    ensures
        apply_attrs(s, attrs, from)->Ok_0.name_override == (if names_in_attrs(attrs, from).len()
            > 0 {
            Some(names_in_attrs(attrs, from).last())
        } else {
            s.name_override
        }),
    decreases attrs.len() - from,
{
    if from < attrs.len() && from >= 0 {
        if is_kdl_path(attrs[from].path_ident) {
            let metas = attrs[from].metas@;
            metas_names(s, metas);
            attrs_names(apply_metas(s, metas)->Ok_0, attrs, from + 1);
        } else {
            attrs_names(s, attrs, from + 1);
        }
    }
}

/// For an accepted field: it is nested (read from and written to a
/// children block) exactly when one of its `kdl` attributes holds `child`;
/// it is a list exactly when its type, after an outer `Option` is taken
/// off, is a `Vec<T>`; it is optional exactly when its type is an
/// `Option<T>`; the type it is read and written as is what is left of its
/// type once an outer `Option<..>` and then a `Vec<..>` are taken off; and
/// its node name is the last `name = ".."` among its `kdl` attributes, or
/// else its identifier.
pub proof fn lemma_field_classification(input: FieldInput, f: Field)
    requires
        field_result(input) == Ok::<Field, crate::model::AttrError>(f),
    ensures
        is_nested(f.kind) <==> has_child_item(input.attrs@),
        is_list(f.kind) <==> peel(peel(input.ty, "Option"@).1, "Vec"@).0,
        f.optional <==> peel(input.ty, "Option"@).0,
        f.name == (if names_in_attrs(input.attrs@, 0).len() > 0 {
            names_in_attrs(input.attrs@, 0).last()
        } else {
            input.ident
        }),
        f.ident == input.ident,
        f.optional <==> inner_type_of(input.ty, "Option"@) is Some,
        ({
            let after_option = match inner_type_of(input.ty, "Option"@) {
                Some(t) => t,
                None => input.ty,
            };
            &&& is_list(f.kind) <==> inner_type_of(after_option, "Vec"@) is Some
            &&& f.inner_ty == match inner_type_of(after_option, "Vec"@) {
                Some(t) => t,
                None => after_option,
            }
        }),
{
    attrs_child(initial_settings(), input.attrs@, 0);
    attrs_names(initial_settings(), input.attrs@, 0);
}

/// Both derives read a struct into one and the same container: an
/// accepted input determines its container's name, generics and fields,
/// so the `ToKdl` and `FromKdl` impls are built from the same node names,
/// kinds, optionality and types of the fields.
pub proof fn lemma_container_determined(input: DeriveInput, c1: Container, c2: Container)
    requires
        container_of(input, c1),
        container_of(input, c2),
    ensures
        c1.ident == c2.ident,
        c1.generics == c2.generics,
        c1.fields@ == c2.fields@,
{
    if let Data::NamedStruct(fields) = input.data {
        assert forall|i: int| 0 <= i < c1.fields@.len() implies c1.fields@[i] == c2.fields@[i] by {
            assert(field_result(fields@[i]) == Ok::<Field, crate::model::AttrError>(c1.fields@[i]));
        }
        assert(c1.fields@ =~= c2.fields@);
    }
}

/// The item lists of the `kdl` attributes among `attrs` from position
/// `from` on, in order; other attributes are left out.
pub open spec fn kdl_items(attrs: Seq<Attribute>, from: int) -> Seq<Seq<Meta>>
    decreases attrs.len() - from,
{
    if from < 0 || from >= attrs.len() {
        Seq::empty()
    } else if is_kdl_path(attrs[from].path_ident) {
        seq![attrs[from].metas@] + kdl_items(attrs, from + 1)
    } else {
        kdl_items(attrs, from + 1)
    }
}

/// The settings after the item lists `items`, in order.
pub open spec fn apply_items(s: AttrSettings, items: Seq<Seq<Meta>>) -> Result<AttrSettings, crate::model::AttrCause>
    decreases items.len(),
{
    if items.len() == 0 {
        Ok(s)
    } else {
        match apply_metas(s, items[0]) {
            Ok(n) => apply_items(n, items.drop_first()),
            Err(c) => Err(c),
        }
    }
}

proof fn attrs_by_items(s: AttrSettings, attrs: Seq<Attribute>, from: int)
    requires
        0 <= from,
    ensures
        match apply_attrs(s, attrs, from) {
            Ok(x) => apply_items(s, kdl_items(attrs, from)) == Ok::<AttrSettings, crate::model::AttrCause>(x),
            Err((_, c)) => apply_items(s, kdl_items(attrs, from)) == Err::<AttrSettings, crate::model::AttrCause>(c),
        },
    decreases attrs.len() - from,
{
    if from < attrs.len() {
        if is_kdl_path(attrs[from].path_ident) {
            let items = kdl_items(attrs, from);
            assert(items[0] == attrs[from].metas@);
            assert(items.drop_first() =~= kdl_items(attrs, from + 1));
            match apply_metas(s, attrs[from].metas@) {
                Ok(n) => attrs_by_items(n, attrs, from + 1),
                Err(_) => {},
            }
        } else {
            attrs_by_items(s, attrs, from + 1);
        }
    }
}

/// Attributes whose path is not `kdl` never change how a field is read:
/// two fields with the same identifier, the same type and the same `kdl`
/// attributes in the same order are both accepted, as the same field, or
/// both refused, for the same cause.
pub proof fn lemma_other_attributes_ignored(a: FieldInput, b: FieldInput)
    requires
        a.ident == b.ident,
        a.ty == b.ty,
        kdl_items(a.attrs@, 0) == kdl_items(b.attrs@, 0),
    ensures
        field_result(a) is Ok <==> field_result(b) is Ok,
        field_result(a) is Ok ==> field_result(a) == field_result(b),
        field_result(a) is Err ==> field_result(a)->Err_0.cause == field_result(b)->Err_0.cause,
{
    attrs_by_items(initial_settings(), a.attrs@, 0);
    attrs_by_items(initial_settings(), b.attrs@, 0);
}

} // verus!
