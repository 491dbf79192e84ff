//! Writing out the code of the `ToKdl` and `FromKdl` impls of a struct.
use vstd::prelude::*;
use vstd::string::*;

use crate::model::{Container, Field, FieldKind};
use crate::template as t;
use crate::text::{
    all_plain, literal_of, literal_value, quoted, string_literal, unraw, unraw_ident,
};

verus! {

// ---------------------------------------------------------------------
// ToKdl
// ---------------------------------------------------------------------

/// The statements that push the node(s) of a field of this kind, its value
/// being bound to `__v` (or its items to `__list`), under the node name
/// written as the string literal `lit`.
pub open spec fn push_text(kind: FieldKind, lit: Seq<char>) -> Seq<char> {
    match kind {
        FieldKind::Scalar => t::NODE_NEW@ + lit + t::SCALAR_ENTRY@ + t::NODE_PUSH@,
        FieldKind::ScalarVec => t::NODE_NEW@ + lit + t::SCALAR_VEC_ENTRIES@ + t::NODE_PUSH@,
        FieldKind::Child => t::NODE_NEW@ + lit + t::CHILD_BLOCK@ + t::NODE_PUSH@,
        FieldKind::ChildVec => t::FOR_EACH_ITEM@ + t::NODE_NEW@ + lit + t::CHILD_ITEM_BLOCK@
            + t::NODE_PUSH@ + t::LOOP_END@,
    }
}

/// The name the field's value is bound to in the statements that write it.
pub open spec fn binding_of(kind: FieldKind) -> Seq<char> {
    match kind {
        FieldKind::Scalar | FieldKind::Child => "__v"@,
        FieldKind::ScalarVec | FieldKind::ChildVec => "__list"@,
    }
}

/// The code that writes one field into `__doc`: an optional field only when
/// it is `Some`, any other field always.
pub open spec fn field_to_text(f: Field, lit: Seq<char>) -> Seq<char> {
    if f.optional {
        t::IF_SOME@ + binding_of(f.kind) + t::IF_SOME_SELF@ + f.ident@ + t::BLOCK_OPEN@ + push_text(
            f.kind,
            lit,
        ) + t::BLOCK_CLOSE@
    } else {
        t::LET_OPEN@ + binding_of(f.kind) + t::LET_SELF@ + f.ident@ + t::LET_END@ + push_text(
            f.kind,
            lit,
        ) + t::BLOCK_CLOSE@
    }
}

/// `impl<..> Name<..> where ..` without the `impl` keyword.
pub open spec fn impl_header(c: Container) -> Seq<char> {
    c.generics.impl_generics@ + t::SPACE@ + c.ident@ + t::SPACE@ + c.generics.ty_generics@
        + t::SPACE@ + c.generics.where_clause@
}

/// The writing code of the first `n` fields, in order, the field at
/// position `i` under the node name literal `lits[i]`.
pub open spec fn fields_to_text(fields: Seq<Field>, lits: Seq<String>, n: int) -> Seq<char>
    decreases n,
{
    if n <= 0 {
        Seq::empty()
    } else {
        fields_to_text(fields, lits, n - 1) + field_to_text(fields[n - 1], lits[n - 1]@)
    }
}

/// The whole `ToKdl` expansion of `c`, the field at position `i` written
/// under the node name literal `lits[i]`.
pub open spec fn to_kdl_text(c: Container, lits: Seq<String>) -> Seq<char> {
    t::TO_KDL_HEAD@ + impl_header(c) + t::TO_KDL_OPEN@ + fields_to_text(
        c.fields@,
        lits,
        c.fields@.len() as int,
    ) + t::TO_KDL_TAIL@
}

fn push_code(kind: FieldKind, lit: &str) -> (r: String)
    ensures
        r@ == push_text(kind, lit@),
{
    let mut out;
    match kind {
        FieldKind::Scalar => {
            out = String::from_str(t::NODE_NEW);
            out.append(lit);
            out.append(t::SCALAR_ENTRY);
            out.append(t::NODE_PUSH);
        },
        FieldKind::ScalarVec => {
            out = String::from_str(t::NODE_NEW);
            out.append(lit);
            out.append(t::SCALAR_VEC_ENTRIES);
            out.append(t::NODE_PUSH);
        },
        FieldKind::Child => {
            out = String::from_str(t::NODE_NEW);
            out.append(lit);
            out.append(t::CHILD_BLOCK);
            out.append(t::NODE_PUSH);
        },
        FieldKind::ChildVec => {
            out = String::from_str(t::FOR_EACH_ITEM);
            out.append(t::NODE_NEW);
            out.append(lit);
            out.append(t::CHILD_ITEM_BLOCK);
            out.append(t::NODE_PUSH);
            out.append(t::LOOP_END);
        },
    }
    out
}

fn binding(kind: FieldKind) -> (r: &'static str)
    ensures
        r@ == binding_of(kind),
{
    match kind {
        FieldKind::Scalar | FieldKind::Child => "__v",
        FieldKind::ScalarVec | FieldKind::ChildVec => "__list",
    }
}

impl Field {
    /// The Rust source of the node name literal: the field's KDL name.
    fn name_literal(&self) -> (r: String)
        ensures
            literal_of(self.name@, r@),
    {
        string_literal(self.name.as_str())
    }
}

/// The code that writes `field` into `__doc`, under the node name literal
/// `name_literal`.
pub fn field_to_kdl_code(field: &Field, name_literal: &str) -> (r: String)
    ensures
        r@ == field_to_text(*field, name_literal@),
{
    let build = push_code(field.kind, name_literal);
    let var = binding(field.kind);
    let mut out;
    if field.optional {
        out = String::from_str(t::IF_SOME);
        out.append(var);
        out.append(t::IF_SOME_SELF);
        out.append(field.ident.as_str());
        out.append(t::BLOCK_OPEN);
    } else {
        out = String::from_str(t::LET_OPEN);
        out.append(var);
        out.append(t::LET_SELF);
        out.append(field.ident.as_str());
        out.append(t::LET_END);
    }
    out.append(build.as_str());
    out.append(t::BLOCK_CLOSE);
    out
}

/// The code that writes `field` into `__doc`, under its KDL name.
pub fn field_to_tokens(field: &Field) -> (r: String)
    ensures
        exists|lit: String|
            #![trigger field_to_text(*field, lit@)]
            r@ == field_to_text(*field, lit@) && literal_of(field.name@, lit@),
{
    let lit = field.name_literal();
    let r = field_to_kdl_code(field, lit.as_str());
    assert(r@ == field_to_text(*field, lit@));
    r
}

/// `lits` holds one string literal per field, in order, each written for
/// the field's KDL name.
pub open spec fn literals_of(fields: Seq<Field>, lits: Seq<String>) -> bool {
    &&& lits.len() == fields.len()
    &&& forall|i: int| 0 <= i < fields.len() ==> literal_of(#[trigger] fields[i].name@, lits[i]@)
}

/// The node name literals of the fields of `container`, in order.
fn name_literals(container: &Container) -> (r: Vec<String>)
    ensures
        literals_of(container.fields@, r@),
{
    let mut lits: Vec<String> = Vec::new();
    let mut i: usize = 0;
    while i < container.fields.len()
        invariant
            i <= container.fields@.len(),
            lits@.len() == i,
            forall|j: int| 0 <= j < i ==> literal_of(#[trigger] container.fields@[j].name@, lits@[j]@),
        decreases container.fields@.len() - i,
    {
        lits.push(container.fields[i].name_literal());
        i = i + 1;
    }
    lits
}

fn impl_header_code(container: &Container) -> (r: String)
    ensures
        r@ == impl_header(*container),
{
    let mut out = String::from_str(container.generics.impl_generics.as_str());
    out.append(t::SPACE);
    out.append(container.ident.as_str());
    out.append(t::SPACE);
    out.append(container.generics.ty_generics.as_str());
    out.append(t::SPACE);
    out.append(container.generics.where_clause.as_str());
    out
}

/// The `ToKdl` expansion of `container`, the field at position `i` written
/// under the node name literal `name_literals[i]`.
pub fn to_kdl_code(container: &Container, name_literals: &Vec<String>) -> (r: String)
    requires
        name_literals@.len() == container.fields@.len(),
    ensures
        r@ == to_kdl_text(*container, name_literals@),
{
    let mut body = String::new();
    let mut i: usize = 0;
    while i < container.fields.len()
        invariant
            i <= container.fields@.len(),
            name_literals@.len() == container.fields@.len(),
            body@ == fields_to_text(container.fields@, name_literals@, i as int),
        decreases container.fields@.len() - i,
    {
        let code = field_to_kdl_code(&container.fields[i], name_literals[i].as_str());
        body.append(code.as_str());
        i = i + 1;
    }
    let mut out = String::from_str(t::TO_KDL_HEAD);
    let header = impl_header_code(container);
    out.append(header.as_str());
    out.append(t::TO_KDL_OPEN);
    out.append(body.as_str());
    out.append(t::TO_KDL_TAIL);
    out
}

/// The `ToKdl` expansion of `container`: helper traits for the scalar
/// types, and `to_kdl_document` / `to_kdl_string` methods that write the
/// fields in order, each under its KDL name.
pub fn expand_to_kdl(container: &Container) -> (r: String)
    ensures
        exists|lits: Seq<String>|
            literals_of(container.fields@, lits) && r@ == #[trigger] to_kdl_text(*container, lits),
{
    let lits = name_literals(container);
    let r = to_kdl_code(container, &lits);
    assert(r@ == to_kdl_text(*container, lits@));
    r
}

// ---------------------------------------------------------------------
// FromKdl
// ---------------------------------------------------------------------

/// The value of the field's temporary when its node was read.
pub open spec fn found_text(optional: bool) -> Seq<char> {
    if optional {
        t::FOUND_SOME_SOME@
    } else {
        t::FOUND_SOME@
    }
}

/// The value of the field's temporary when its node is absent: `None` for
/// an optional field, an error diagnostic otherwise.
pub open spec fn absent_text(optional: bool, lit: Seq<char>) -> Seq<char> {
    if optional {
        t::ABSENT_NONE@
    } else {
        t::ABSENT_REQUIRED@ + lit + t::ABSENT_REQUIRED_END@
    }
}

/// The expression that reads one field from `__doc`, under the node name
/// literal `lit`: `Some(value)` when it could be read, `None` after pushing
/// the diagnostics.
pub open spec fn field_from_text(f: Field, lit: Seq<char>) -> Seq<char> {
    let ty = f.inner_ty.text@;
    match f.kind {
        FieldKind::Scalar => t::GET_NODE@ + lit + t::SCALAR_FIND@ + ty + t::SCALAR_CONVERT@
            + found_text(f.optional) + t::SCALAR_NO_ARG@ + lit + t::NODE_MISSING@ + absent_text(
            f.optional,
            lit,
        ) + t::MATCH_END@,
        FieldKind::Child => t::GET_NODE@ + lit + t::CHILD_FIND@ + ty + t::CHILD_CONVERT@
            + found_text(f.optional) + t::CHILD_NO_BLOCK@ + lit + t::NODE_MISSING@ + absent_text(
            f.optional,
            lit,
        ) + t::MATCH_END@,
        FieldKind::ScalarVec => t::GET_NODE@ + lit + t::SCALAR_VEC_FIND@ + ty
            + t::SCALAR_VEC_CONVERT@ + (if f.optional {
            t::SCALAR_VEC_OPTIONAL@
        } else {
            t::SCALAR_VEC_REQUIRED@
        }),
        FieldKind::ChildVec => t::CHILD_VEC_SCAN@ + lit + t::CHILD_VEC_MATCH@ + ty
            + t::CHILD_VEC_CONVERT@ + lit + t::CHILD_VEC_NO_BLOCK@ + (if f.optional {
            t::CHILD_VEC_OPTIONAL@
        } else {
            t::CHILD_VEC_REQUIRED@
        }),
    }
}

/// The name of the temporary that holds a field's value while reading.
pub open spec fn field_temp(f: Field) -> Seq<char> {
    t::FIELD_PREFIX@ + unraw(f.ident@)
}

/// `let <temp> = <read expression>;`
pub open spec fn field_let_text(f: Field, lit: Seq<char>) -> Seq<char> {
    t::LET@ + field_temp(f) + t::ASSIGN@ + field_from_text(f, lit) + t::STMT_END@
}

/// `<ident>: <temp>.unwrap()`
pub open spec fn field_assign_text(f: Field) -> Seq<char> {
    f.ident@ + t::COLON@ + field_temp(f) + t::UNWRAP@
}

/// The reading statements of the first `n` fields, in order.
pub open spec fn lets_text(fields: Seq<Field>, lits: Seq<String>, n: int) -> Seq<char>
    decreases n,
{
    if n <= 0 {
        Seq::empty()
    } else {
        lets_text(fields, lits, n - 1) + field_let_text(fields[n - 1], lits[n - 1]@)
    }
}

/// The field initialisers of the first `n` fields, in order, separated by
/// commas.
pub open spec fn assigns_text(fields: Seq<Field>, n: int) -> Seq<char>
    decreases n,
{
    if n <= 0 {
        Seq::empty()
    } else if n == 1 {
        field_assign_text(fields[0])
    } else {
        assigns_text(fields, n - 1) + t::FIELD_SEPARATOR@ + field_assign_text(fields[n - 1])
    }
}

/// The whole `FromKdl` expansion of `c`, the field at position `i` read
/// under the node name literal `lits[i]`.
pub open spec fn from_kdl_text(c: Container, lits: Seq<String>) -> Seq<char> {
    t::FROM_KDL_HEAD@ + impl_header(c) + t::FROM_KDL_OPEN@ + lets_text(
        c.fields@,
        lits,
        c.fields@.len() as int,
    ) + t::DIAGNOSTICS_CHECK@ + t::BUILD_SELF@ + assigns_text(c.fields@, c.fields@.len() as int) + t::FROM_KDL_TAIL@
}

/// The expression that reads `field` from `__doc`, under the node name
/// literal `name_literal`.
pub fn field_from_kdl_code(field: &Field, name_literal: &str) -> (r: String)
    ensures
        r@ == field_from_text(*field, name_literal@),
{
    let ty = field.inner_ty.text.as_str();
    let mut out;
    match field.kind {
        FieldKind::Scalar | FieldKind::Child => {
            let is_scalar = field.kind == FieldKind::Scalar;
            out = String::from_str(t::GET_NODE);
            out.append(name_literal);
            out.append(if is_scalar { t::SCALAR_FIND } else { t::CHILD_FIND });
            out.append(ty);
            out.append(if is_scalar { t::SCALAR_CONVERT } else { t::CHILD_CONVERT });
            out.append(if field.optional { t::FOUND_SOME_SOME } else { t::FOUND_SOME });
            out.append(if is_scalar { t::SCALAR_NO_ARG } else { t::CHILD_NO_BLOCK });
            out.append(name_literal);
            out.append(t::NODE_MISSING);
            if field.optional {
                out.append(t::ABSENT_NONE);
            } else {
                let mut absent = String::from_str(t::ABSENT_REQUIRED);
                absent.append(name_literal);
                absent.append(t::ABSENT_REQUIRED_END);
                out.append(absent.as_str());
            }
            out.append(t::MATCH_END);
        },
        FieldKind::ScalarVec => {
            out = String::from_str(t::GET_NODE);
            out.append(name_literal);
            out.append(t::SCALAR_VEC_FIND);
            out.append(ty);
            out.append(t::SCALAR_VEC_CONVERT);
            out.append(
                if field.optional {
                    t::SCALAR_VEC_OPTIONAL
                } else {
                    t::SCALAR_VEC_REQUIRED
                },
            );
        },
        FieldKind::ChildVec => {
            out = String::from_str(t::CHILD_VEC_SCAN);
            out.append(name_literal);
            out.append(t::CHILD_VEC_MATCH);
            out.append(ty);
            out.append(t::CHILD_VEC_CONVERT);
            out.append(name_literal);
            out.append(t::CHILD_VEC_NO_BLOCK);
            out.append(
                if field.optional {
                    t::CHILD_VEC_OPTIONAL
                } else {
                    t::CHILD_VEC_REQUIRED
                },
            );
        },
    }
    out
}

/// The expression that reads `field` from `__doc`, under its KDL name.
pub fn field_from_expr(field: &Field) -> (r: String)
    ensures
        exists|lit: String|
            #![trigger field_from_text(*field, lit@)]
            r@ == field_from_text(*field, lit@) && literal_of(field.name@, lit@),
{
    let lit = field.name_literal();
    let r = field_from_kdl_code(field, lit.as_str());
    assert(r@ == field_from_text(*field, lit@));
    r
}

fn field_temp_code(field: &Field) -> (r: String)
    ensures
        r@ == field_temp(*field),
{
    let bare = unraw_ident(field.ident.as_str());
    let mut out = String::from_str(t::FIELD_PREFIX);
    out.append(bare.as_str());
    out
}

/// The `FromKdl` expansion of `container`, the field at position `i` read
/// under the node name literal `name_literals[i]`.
pub fn from_kdl_code(container: &Container, name_literals: &Vec<String>) -> (r: String)
    requires
        name_literals@.len() == container.fields@.len(),
    ensures
        r@ == from_kdl_text(*container, name_literals@),
{
    let mut lets = String::new();
    let mut assigns = String::new();
    let mut i: usize = 0;
    while i < container.fields.len()
        invariant
            i <= container.fields@.len(),
            name_literals@.len() == container.fields@.len(),
            lets@ == lets_text(container.fields@, name_literals@, i as int),
            assigns@ == assigns_text(container.fields@, i as int),
        decreases container.fields@.len() - i,
    {
        let field = &container.fields[i];
        let temp = field_temp_code(field);
        let expr = field_from_kdl_code(field, name_literals[i].as_str());
        let mut stmt = String::from_str(t::LET);
        stmt.append(temp.as_str());
        stmt.append(t::ASSIGN);
        stmt.append(expr.as_str());
        stmt.append(t::STMT_END);
        lets.append(stmt.as_str());
        let mut init = String::from_str(field.ident.as_str());
        init.append(t::COLON);
        init.append(temp.as_str());
        init.append(t::UNWRAP);
        if i > 0 {
            assigns.append(t::FIELD_SEPARATOR);
            assigns.append(init.as_str());
        } else {
            assigns = init;
        }
        i = i + 1;
    }
    let mut out = String::from_str(t::FROM_KDL_HEAD);
    let header = impl_header_code(container);
    out.append(header.as_str());
    out.append(t::FROM_KDL_OPEN);
    out.append(lets.as_str());
    out.append(t::DIAGNOSTICS_CHECK);
    out.append(t::BUILD_SELF);
    out.append(assigns.as_str());
    out.append(t::FROM_KDL_TAIL);
    out
}

/// The `FromKdl` expansion of `container`: helper traits for the scalar
/// types, and `from_kdl_document` / `from_kdl_str` / `__from_kdl_in`
/// methods that read the fields in order, each under its KDL name,
/// collecting a diagnostic for every field that cannot be read.
pub fn expand_from_kdl(container: &Container) -> (r: String)
    ensures
        exists|lits: Seq<String>|
            literals_of(container.fields@, lits) && r@ == #[trigger] from_kdl_text(*container, lits),
{
    let lits = name_literals(container);
    let r = from_kdl_code(container, &lits);
    assert(r@ == from_kdl_text(*container, lits@));
    r
}

/// Any two lists of node name literals for the fields of one container,
/// whichever calls wrote them, denote the same node names: the fields' KDL
/// names.  So the `ToKdl` and `FromKdl` expansions of a container write and
/// read each field under the same node name; and where a name is made of
/// plain characters, both literals are that name between double quotes.
pub proof fn lemma_same_node_names(c: Container, lits1: Seq<String>, lits2: Seq<String>)
    requires
        literals_of(c.fields@, lits1),
        literals_of(c.fields@, lits2),
    ensures
        forall|i: int|
            0 <= i < c.fields@.len() ==> {
                &&& literal_value(#[trigger] lits1[i]@) == Some(c.fields@[i].name@)
                &&& literal_value(lits2[i]@) == literal_value(lits1[i]@)
                &&& all_plain(c.fields@[i].name@) ==> lits1[i]@ == quoted(c.fields@[i].name@)
                    && lits2[i]@ == lits1[i]@
            },
{
    assert forall|i: int| 0 <= i < c.fields@.len() implies {
        &&& literal_value(#[trigger] lits1[i]@) == Some(c.fields@[i].name@)
        &&& literal_value(lits2[i]@) == literal_value(lits1[i]@)
        &&& all_plain(c.fields@[i].name@) ==> lits1[i]@ == quoted(c.fields@[i].name@)
            && lits2[i]@ == lits1[i]@
    } by {
        assert(literal_of(c.fields@[i].name@, lits1[i]@));
        assert(literal_of(c.fields@[i].name@, lits2[i]@));
    }
}

} // verus!
